use spi_driver::DriverName;
use spi_driver::DriverRegistration;
use spi_driver::Host;
use spi_driver::IdTable;
use spi_driver::RegistrationError;
use spi_driver::SpiMethod;
use spi_driver::SpiMethodVoid;
use spi_driver::ThisModule;

fn name(s: &str) -> DriverName {
    DriverName::new(s.as_bytes().to_vec()).unwrap()
}

fn probe_only() -> DriverRegistration {
    DriverRegistration::new(
        ThisModule(7),
        name("demo"),
        IdTable::new(),
        Some(SpiMethod(1)),
        None,
        None,
    )
}

#[test]
fn register_succeeds_when_host_accepts() {
    let mut host = Host::new(0, 0, 0);
    let mut reg = probe_only();
    assert!(!reg.registered());
    let r = reg.register(&mut host);
    assert_eq!(r, Ok(()));
    assert!(reg.registered());
    assert_eq!(host.register_calls, 1);
}

#[test]
fn register_surfaces_host_rejection() {
    let mut host = Host::new(-22, 0, 0);
    let mut reg = probe_only();
    let r = reg.register(&mut host);
    assert_eq!(r, Err(RegistrationError::HostRejected { code: -22 }));
    assert!(!reg.registered());
    assert_eq!(host.register_calls, 1);
}

#[test]
fn second_register_fails_and_changes_nothing() {
    let mut host = Host::new(0, 0, 0);
    let mut reg = probe_only();
    assert_eq!(reg.register(&mut host), Ok(()));
    let r2 = reg.register(&mut host);
    assert_eq!(r2, Err(RegistrationError::AlreadyRegistered));
    assert!(reg.registered());
    assert_eq!(host.register_calls, 1);
}

#[test]
fn host_records_submitted_descriptor() {
    let mut host = Host::new(0, 0, 0);
    let mut reg = probe_only();
    assert_eq!(reg.register(&mut host), Ok(()));
    assert_eq!(host.last_reg_module, 7);
    assert_eq!(host.last_reg_name, b"demo".to_vec());
    assert_eq!(host.last_reg_id_count, 0);
}

#[test]
fn teardown_of_registered_unregisters_once() {
    let mut host = Host::new(0, 0, 0);
    let mut reg = probe_only();
    assert_eq!(reg.register(&mut host), Ok(()));
    reg.teardown(&mut host);
    assert_eq!(host.unregister_calls, 1);
    assert_eq!(host.last_unreg_name, b"demo".to_vec());
}

#[test]
fn teardown_of_unregistered_never_unregisters() {
    let mut host = Host::new(0, 0, 0);
    let reg = probe_only();
    reg.teardown(&mut host);
    assert_eq!(host.unregister_calls, 0);
}

#[test]
fn new_pinned_registers_in_place() {
    let mut host = Host::new(0, 0, 0);
    let r = DriverRegistration::new_pinned(
        ThisModule(9),
        name("pinned"),
        IdTable::new(),
        Some(SpiMethod(1)),
        Some(SpiMethod(2)),
        Some(SpiMethodVoid(3)),
        &mut host,
    );
    let reg = r.unwrap();
    assert!(reg.registered());
    assert_eq!(host.register_calls, 1);
    assert_eq!(host.last_reg_name, b"pinned".to_vec());
    reg.teardown(&mut host);
    assert_eq!(host.unregister_calls, 1);
}

#[test]
fn new_pinned_surfaces_rejection() {
    let mut host = Host::new(-12, 0, 0);
    let r = DriverRegistration::new_pinned(
        ThisModule(9),
        name("pinned"),
        IdTable::new(),
        Some(SpiMethod(1)),
        None,
        None,
        &mut host,
    );
    assert_eq!(
        r.err(),
        Some(RegistrationError::HostRejected { code: -12 })
    );
    assert_eq!(host.register_calls, 1);
    assert_eq!(host.unregister_calls, 0);
}

#[test]
fn probe_only_handler_leaves_null_slots() {
    let mut host = Host::new(0, 0, 0);
    let mut reg = probe_only();
    assert_eq!(reg.register(&mut host), Ok(()));
    assert!(host.last_reg_probe_set);
    assert!(!host.last_reg_remove_set);
    assert!(!host.last_reg_shutdown_set);
}

#[test]
fn full_handler_sets_all_slots() {
    let mut host = Host::new(0, 0, 0);
    let mut reg = DriverRegistration::new(
        ThisModule(7),
        name("demo"),
        IdTable::new(),
        Some(SpiMethod(1)),
        Some(SpiMethod(2)),
        Some(SpiMethodVoid(3)),
    );
    assert_eq!(reg.register(&mut host), Ok(()));
    assert!(host.last_reg_probe_set);
    assert!(host.last_reg_remove_set);
    assert!(host.last_reg_shutdown_set);
}
