use spi_driver::Host;
use spi_driver::Spi;
use spi_driver::SpiDevice;
use spi_driver::TransferError;

#[test]
fn device_handle_round_trip() {
    let mut dev = SpiDevice::from_ptr(0x4000);
    assert_eq!(dev.to_ptr(), 0x4000);
}

#[test]
fn empty_transfer_succeeds_trivially() {
    let mut host = Host::new(0, 0, 0);
    let mut dev = SpiDevice::from_ptr(1);
    let tx: Vec<u8> = Vec::new();
    let mut rx: Vec<u8> = Vec::new();
    let r = Spi::write_then_read(&mut dev, &tx, 0, &mut rx, 0, &mut host);
    assert_eq!(r, Ok(()));
    assert_eq!(host.transfer_calls, 1);
    assert_eq!(host.last_transfer_n_tx, 0);
    assert_eq!(host.last_transfer_n_rx, 0);
    assert!(rx.is_empty());
}

#[test]
fn transfer_error_surfaces_host_code() {
    let mut host = Host::new(0, -5, 0xAB);
    let mut dev = SpiDevice::from_ptr(1);
    let tx = vec![9u8, 8u8];
    let mut rx = vec![1u8, 2u8];
    let r = Spi::write_then_read(&mut dev, &tx, 2, &mut rx, 2, &mut host);
    assert_eq!(r, Err(TransferError { code: -5 }));
    assert_eq!(rx, vec![1u8, 2u8]);
    assert_eq!(host.transfer_calls, 1);
}

#[test]
fn read_fills_requested_prefix() {
    let mut host = Host::new(0, 0, 0xAB);
    let mut dev = SpiDevice::from_ptr(2);
    let mut rx = vec![1u8, 2u8, 3u8];
    let r = Spi::read(&mut dev, &mut rx, 2, &mut host);
    assert_eq!(r, Ok(()));
    assert_eq!(rx, vec![0xABu8, 0xABu8, 3u8]);
    assert_eq!(host.last_transfer_n_tx, 0);
    assert_eq!(host.last_transfer_n_rx, 2);
}

#[test]
fn write_records_lengths() {
    let mut host = Host::new(0, 0, 0);
    let mut dev = SpiDevice::from_ptr(3);
    let tx = vec![1u8, 2u8, 3u8];
    let r = Spi::write(&mut dev, &tx, 3, &mut host);
    assert_eq!(r, Ok(()));
    assert_eq!(host.transfer_calls, 1);
    assert_eq!(host.last_transfer_dev, 3);
    assert_eq!(host.last_transfer_n_tx, 3);
    assert_eq!(host.last_transfer_n_rx, 0);
}

fn same_transfer_observations(a: &Host, b: &Host) -> bool {
    a.transfer_calls == b.transfer_calls
        && a.last_transfer_dev == b.last_transfer_dev
        && a.last_transfer_n_tx == b.last_transfer_n_tx
        && a.last_transfer_n_rx == b.last_transfer_n_rx
        && a.register_calls == b.register_calls
        && a.unregister_calls == b.unregister_calls
}

#[test]
fn write_observes_like_transfer_with_empty_rx() {
    let tx = vec![5u8, 6u8];

    let mut host_a = Host::new(0, 0, 0);
    let mut dev_a = SpiDevice::from_ptr(4);
    let ra = Spi::write(&mut dev_a, &tx, 2, &mut host_a);

    let mut host_b = Host::new(0, 0, 0);
    let mut dev_b = SpiDevice::from_ptr(4);
    let mut empty_rx: Vec<u8> = Vec::new();
    let rb = Spi::write_then_read(&mut dev_b, &tx, 2, &mut empty_rx, 0, &mut host_b);

    assert_eq!(ra, rb);
    assert!(same_transfer_observations(&host_a, &host_b));
    assert!(empty_rx.is_empty());
}

#[test]
fn read_observes_like_transfer_with_empty_tx() {
    let mut host_a = Host::new(0, 0, 0x5A);
    let mut dev_a = SpiDevice::from_ptr(6);
    let mut rx_a = vec![0u8, 0u8, 7u8];
    let ra = Spi::read(&mut dev_a, &mut rx_a, 2, &mut host_a);

    let mut host_b = Host::new(0, 0, 0x5A);
    let mut dev_b = SpiDevice::from_ptr(6);
    let mut rx_b = vec![0u8, 0u8, 7u8];
    let empty_tx: Vec<u8> = Vec::new();
    let rb = Spi::write_then_read(&mut dev_b, &empty_tx, 0, &mut rx_b, 2, &mut host_b);

    assert_eq!(ra, rb);
    assert_eq!(rx_a, rx_b);
    assert!(same_transfer_observations(&host_a, &host_b));
}

#[test]
fn failing_read_observes_like_failing_transfer() {
    let mut host_a = Host::new(0, -71, 0x5A);
    let mut dev_a = SpiDevice::from_ptr(6);
    let mut rx_a = vec![9u8, 9u8];
    let ra = Spi::read(&mut dev_a, &mut rx_a, 2, &mut host_a);

    let mut host_b = Host::new(0, -71, 0x5A);
    let mut dev_b = SpiDevice::from_ptr(6);
    let mut rx_b = vec![9u8, 9u8];
    let empty_tx: Vec<u8> = Vec::new();
    let rb = Spi::write_then_read(&mut dev_b, &empty_tx, 0, &mut rx_b, 2, &mut host_b);

    assert_eq!(ra, Err(TransferError { code: -71 }));
    assert_eq!(ra, rb);
    assert_eq!(rx_a, rx_b);
    assert_eq!(rx_a, vec![9u8, 9u8]);
    assert!(same_transfer_observations(&host_a, &host_b));
}
