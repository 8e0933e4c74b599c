//! Error taxonomy of the binding layer.
//!
//! Every host-reported failure is surfaced as a typed error carrying the
//! host's numeric status code; nothing is silently discarded except the
//! deliberate discard of handler errors in the void-returning shutdown
//! trampoline, which has no channel back to the host.

use vstd::prelude::*;

verus! {

/// Why a registration attempt failed.
#[derive(Debug, Clone, Copy, PartialEq, Eq, Structural)]
pub enum RegistrationError {
    /// `register` was called on an instance that is already registered:
    /// a logic error of the caller, not a host condition.
    AlreadyRegistered,
    /// The host rejected the descriptor; carries the host's status code.
    HostRejected { code: i32 },
}

/// The host reported a failed synchronous transfer; carries the host's
/// status code. The caller may retry at its own discretion.
#[derive(Debug, Clone, Copy, PartialEq, Eq, Structural)]
pub struct TransferError {
    pub code: i32,
}

/// A failure reported by a user-supplied lifecycle handler; its code is
/// translated into the host's integer calling convention by a trampoline.
#[derive(Debug, Clone, Copy, PartialEq, Eq, Structural)]
pub struct DriverError {
    pub code: i32,
}

/// An identifier-table entry that could never be handed to the host:
/// such an entry must be refused when the table is built, never later.
///
/// The opaque per-device payload is carried as a `usize`, which is one
/// machine word by construction, so a wrongly sized data word cannot be
/// expressed at all; only the name invariants can fail.
#[derive(Debug, Clone, Copy, PartialEq, Eq, Structural)]
pub enum BuildTimeInvariantViolation {
    /// The name does not fit the host's fixed-size name buffer
    /// together with its terminator.
    NameTooLong,
    /// The name holds an interior zero byte, so it cannot be stored as a
    /// terminated string in the host's name buffer.
    NameInteriorNul,
}

} // verus!
