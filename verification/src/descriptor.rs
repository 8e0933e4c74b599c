//! The foreign-compatible driver descriptor.
//!
//! The descriptor is the fixed-layout record a registration submits to the
//! host: a name field, the extent of the identifier table the host may read
//! through the registration, and three callback slots. An unset slot is the
//! null callback pointer, a state meaningful to the host (it falls back to
//! its own default behaviour) and distinct from a callback that is set but
//! always succeeds.

use vstd::prelude::*;

verus! {

/// A host-callable lifecycle callback returning an integer status:
/// the wrapped word stands for the trampoline's function pointer.
#[derive(Debug, Clone, Copy, PartialEq, Eq, Structural)]
pub struct SpiMethod(pub u64);

/// A host-callable lifecycle callback returning nothing.
#[derive(Debug, Clone, Copy, PartialEq, Eq, Structural)]
pub struct SpiMethodVoid(pub u64);

/// The descriptor record. It is default-initialized when a registration is
/// constructed and populated by `register`, so teardown always has a valid,
/// unconditionally operable value: "not populated yet" is the empty
/// descriptor, never an absent one.
pub struct SpiDriver {
    /// Name bytes, copied from the registration's accepted name.
    pub name: Vec<u8>,
    /// How many identifier-table entries the host may read through the
    /// registration that owns this descriptor.
    pub id_count: usize,
    /// Probe slot; `None` is the null callback pointer.
    pub probe: Option<SpiMethod>,
    /// Remove slot; `None` is the null callback pointer.
    pub remove: Option<SpiMethod>,
    /// Shutdown slot; `None` is the null callback pointer.
    pub shutdown: Option<SpiMethodVoid>,
}

/// The empty descriptor: no name, no table, all slots null.
pub open spec fn empty_descriptor(d: SpiDriver) -> bool {
    &&& d.name@ == Seq::<u8>::empty()
    &&& d.id_count == 0
    &&& d.probe is None
    &&& d.remove is None
    &&& d.shutdown is None
}

impl Default for SpiDriver {
    /// The empty descriptor.
    fn default() -> (r: SpiDriver)
        ensures
            empty_descriptor(r),
    {
        SpiDriver { name: Vec::new(), id_count: 0, probe: None, remove: None, shutdown: None }
    }
}

} // verus!
