use spi_driver::probe_trampoline;
use spi_driver::remove_trampoline;
use spi_driver::shutdown_trampoline;
use spi_driver::status_from_result;
use spi_driver::DriverError;
use spi_driver::DriverName;
use spi_driver::DriverRegistration;
use spi_driver::Host;
use spi_driver::IdTable;
use spi_driver::SpiDevice;
use spi_driver::SpiDeviceId;
use spi_driver::SpiDummy;
use spi_driver::SpiHandler;
use spi_driver::SpiMethod;
use spi_driver::ThisModule;

#[test]
fn dummy_driver_scenario() {
    // An identifier table with one entry: name "dummy", one-word payload 42.
    let mut table = IdTable::new();
    table.push(SpiDeviceId::new(b"dummy".to_vec(), 42).unwrap());

    // A host stub that accepts any well-formed descriptor.
    let mut host = Host::new(0, 0, 0);
    let reg = DriverRegistration::new_pinned(
        ThisModule(1),
        DriverName::new(b"dummy".to_vec()).unwrap(),
        table,
        Some(SpiMethod(0x10)),
        None,
        None,
        &mut host,
    )
    .unwrap();
    assert!(reg.registered());
    assert_eq!(host.register_calls, 1);
    assert_eq!(host.last_reg_name, b"dummy".to_vec());
    assert_eq!(host.last_reg_id_count, 1);
    assert!(host.last_reg_probe_set);
    assert!(!host.last_reg_remove_set);
    assert!(!host.last_reg_shutdown_set);

    // A stub-simulated probe invocation with a fake device pointer reaches
    // the handler and answers the host's success code.
    let status = probe_trampoline::<SpiDummy>(0x2000);
    assert_eq!(status, 0);

    reg.teardown(&mut host);
    assert_eq!(host.unregister_calls, 1);
}

struct FailingHandler;

impl SpiHandler for FailingHandler {
    fn probe(_dev: &mut SpiDevice) -> Result<i32, DriverError> {
        Err(DriverError { code: -19 })
    }

    fn remove(_dev: &mut SpiDevice) -> Result<i32, DriverError> {
        Err(DriverError { code: -5 })
    }

    fn shutdown(_dev: &mut SpiDevice) -> Result<(), DriverError> {
        Err(DriverError { code: -1 })
    }
}

#[test]
fn trampolines_translate_handler_errors() {
    assert_eq!(probe_trampoline::<FailingHandler>(1), -19);
    assert_eq!(remove_trampoline::<FailingHandler>(1), -5);
    // A shutdown error has no channel to the host and is discarded.
    shutdown_trampoline::<FailingHandler>(1);
}

#[test]
fn trampolines_answer_success_as_zero() {
    assert_eq!(probe_trampoline::<SpiDummy>(1), 0);
    assert_eq!(remove_trampoline::<SpiDummy>(1), 0);
    shutdown_trampoline::<SpiDummy>(1);
}

#[test]
fn status_translation_is_exact() {
    assert_eq!(status_from_result(&Ok(7)), 0);
    assert_eq!(status_from_result(&Err(DriverError { code: -19 })), -19);
}
