//! A safe, ownership-correct driver-registration and transfer wrapper pattern
//! for hardware driver bindings, stated against an explicit, fakeable host.
//!
//! The library models the three entry points a host subsystem offers a driver
//! binding — registration, unregistration, and synchronous half-duplex
//! transfer — as methods of an explicit [`host::Host`] value with exact
//! contracts, and builds the verified binding layer on top of them:
//! [`device::SpiDevice`] and [`device::Spi`] for transfers, and
//! [`registration::DriverRegistration`] for the register-once /
//! unregister-on-teardown lifecycle.

mod descriptor;
mod device;
mod error;
mod handler;
mod host;
mod ids;
mod registration;

pub use descriptor::SpiDriver;
pub use descriptor::SpiMethod;
pub use descriptor::SpiMethodVoid;
pub use device::Spi;
pub use device::SpiDevice;
pub use error::BuildTimeInvariantViolation;
pub use error::DriverError;
pub use error::RegistrationError;
pub use error::TransferError;
pub use handler::probe_trampoline;
pub use handler::remove_trampoline;
pub use handler::shutdown_trampoline;
pub use handler::status_from_result;
pub use handler::SpiDummy;
pub use handler::SpiHandler;
pub use host::Host;
pub use host::ThisModule;
pub use ids::DriverName;
pub use ids::IdTable;
pub use ids::SpiDeviceId;
pub use ids::SPI_NAME_SIZE;
pub use registration::DriverRegistration;
