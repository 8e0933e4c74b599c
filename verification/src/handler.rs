//! User-supplied lifecycle handlers and the trampolines that adapt them
//! to the host's calling convention.
//!
//! The host invokes lifecycle callbacks with a raw device pointer and an
//! integer-or-void return convention. A handler is a polymorphic type
//! implementing the closed set of operations {probe, remove, shutdown};
//! one fixed-signature trampoline per operation wraps the pointer in a
//! `SpiDevice` and translates the handler's result exactly once, reusable
//! across all handler implementations.

use crate::device::SpiDevice;
use crate::error::DriverError;
use vstd::prelude::*;

verus! {

/// The closed set of lifecycle operations a driver may implement.
///
/// The host promises not to run `probe` concurrently with `remove` or
/// `shutdown` for one device, and to call none of them before
/// registration has succeeded nor after unregistration begins; those are
/// inherited host contracts, not enforced here. A failing operation
/// reports a negative code, the host convention for errors; 0 is reserved
/// for success.
pub trait SpiHandler {
    /// Called when the host matches a device to this driver.
    fn probe(dev: &mut SpiDevice) -> (r: Result<i32, DriverError>)
        ensures
            r matches Err(e) ==> e.code < 0,
    ;

    /// Called when the device is removed.
    fn remove(dev: &mut SpiDevice) -> (r: Result<i32, DriverError>)
        ensures
            r matches Err(e) ==> e.code < 0,
    ;

    /// Called when the host shuts down; any error is discarded by the
    /// trampoline, since the host's void convention has no channel for
    /// it.
    fn shutdown(dev: &mut SpiDevice) -> (r: Result<(), DriverError>);
}

/// How a handler's integer-returning result is presented to the host.
pub open spec fn spec_status(r: Result<i32, DriverError>) -> i32 {
    match r {
        Ok(_) => 0,
        Err(e) => e.code,
    }
}

/// Translates a handler result into the host's integer convention:
/// success is 0, failure is the error's own code.
pub fn status_from_result(r: &Result<i32, DriverError>) -> (status: i32)
    ensures
        status == spec_status(*r),
{
    match r {
        Ok(_) => 0,
        Err(e) => e.code,
    }
}

/// The probe trampoline: wraps the host's device pointer, dispatches to
/// the handler's probe, and answers in the host's integer convention —
/// 0 exactly when the handler succeeded, else the handler's negative
/// code. The incoming pointer is treated as valid without further
/// validation; that it is non-null and live is the host's contract, a
/// trusted precondition of every trampoline.
pub fn probe_trampoline<H: SpiHandler>(dev: u64) -> (status: i32)
    requires
        dev != 0,
    ensures
        status <= 0,
{
    let mut device = SpiDevice::from_ptr(dev);
    let r = H::probe(&mut device);
    status_from_result(&r)
}

/// The remove trampoline, with the same convention as probe.
pub fn remove_trampoline<H: SpiHandler>(dev: u64) -> (status: i32)
    requires
        dev != 0,
    ensures
        status <= 0,
{
    let mut device = SpiDevice::from_ptr(dev);
    let r = H::remove(&mut device);
    status_from_result(&r)
}

/// The shutdown trampoline: void-returning, so a handler error is
/// deliberately discarded — the host convention has no channel for it.
pub fn shutdown_trampoline<H: SpiHandler>(dev: u64)
    requires
        dev != 0,
{
    let mut device = SpiDevice::from_ptr(dev);
    let _ = H::shutdown(&mut device);
}

/// A minimal handler: every operation reports success, so a probe
/// reaching it comes back to the host as status 0. It serves as the
/// reference implementation of the handler contract.
pub struct SpiDummy;

impl SpiHandler for SpiDummy {
    fn probe(_dev: &mut SpiDevice) -> (r: Result<i32, DriverError>)
        ensures
            r == Ok::<i32, DriverError>(0),
    {
        Ok(0)
    }

    fn remove(_dev: &mut SpiDevice) -> (r: Result<i32, DriverError>)
        ensures
            r == Ok::<i32, DriverError>(0),
    {
        Ok(0)
    }

    fn shutdown(_dev: &mut SpiDevice) -> (r: Result<(), DriverError>)
        ensures
            r == Ok::<(), DriverError>(()),
    {
        Ok(())
    }
}

} // verus!
