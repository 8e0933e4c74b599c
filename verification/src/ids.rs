//! Device names and the identifier table.
//!
//! The host matches discovered devices against a table of (name, data word)
//! entries. A name must fit the host's fixed-size name buffer together with
//! its terminator and may not hold an interior zero byte; an entry that
//! breaks this is refused when it is built, never later.

use crate::error::BuildTimeInvariantViolation;
use vstd::prelude::*;

verus! {

/// Size of the host's fixed name buffer, terminator included.
pub const SPI_NAME_SIZE: usize = 32;

/// A byte string that can be stored, terminated, in the host's name buffer.
pub open spec fn valid_name(s: Seq<u8>) -> bool {
    &&& s.len() < SPI_NAME_SIZE
    &&& forall|i: int| 0 <= i < s.len() ==> s[i] != 0
}

/// Returns whether `bytes` holds a zero byte.
fn has_interior_nul(bytes: &Vec<u8>) -> (r: bool)
    ensures
        r == exists|i: int| 0 <= i < bytes@.len() && bytes@[i] == 0,
{
    let mut i: usize = 0;
    while i < bytes.len()
        invariant
            0 <= i <= bytes@.len(),
            forall|j: int| 0 <= j < i ==> bytes@[j] != 0,
        decreases bytes@.len() - i,
    {
        if bytes[i] == 0 {
            return true;
        }
        i += 1;
    }
    false
}

/// Returns a fresh vector holding the same bytes as `src`.
pub(crate) fn copy_bytes(src: &Vec<u8>) -> (r: Vec<u8>)
    ensures
        r@ == src@,
{
    let mut r: Vec<u8> = Vec::new();
    let mut i: usize = 0;
    while i < src.len()
        invariant
            0 <= i <= src@.len(),
            r@ == src@.subrange(0, i as int),
        decreases src@.len() - i,
    {
        r.push(src[i]);
        proof {
            assert(r@ =~= src@.subrange(0, i + 1));
        }
        i += 1;
    }
    proof {
        assert(r@ =~= src@);
    }
    r
}

/// A driver name accepted for the host's name buffer.
pub struct DriverName {
    bytes: Vec<u8>,
}

impl View for DriverName {
    type V = Seq<u8>;

    closed spec fn view(&self) -> Seq<u8> {
        self.bytes@
    }
}

impl DriverName {
    #[verifier::type_invariant]
    closed spec fn inv(&self) -> bool {
        valid_name(self.bytes@)
    }

    /// Accepts `bytes` as a driver name, or refuses it for good:
    /// a name that does not fit the host's buffer, or holds an interior
    /// zero byte, can never be handed to the host.
    pub fn new(bytes: Vec<u8>) -> (r: Result<DriverName, BuildTimeInvariantViolation>)
        ensures
            r is Ok <==> valid_name(bytes@),
            r matches Ok(n) ==> n@ == bytes@,
            bytes@.len() >= SPI_NAME_SIZE ==> r == Err::<DriverName, _>(
                BuildTimeInvariantViolation::NameTooLong,
            ),
            bytes@.len() < SPI_NAME_SIZE && !valid_name(bytes@) ==> r == Err::<DriverName, _>(
                BuildTimeInvariantViolation::NameInteriorNul,
            ),
    {
        if bytes.len() >= SPI_NAME_SIZE {
            return Err(BuildTimeInvariantViolation::NameTooLong);
        }
        if has_interior_nul(&bytes) {
            return Err(BuildTimeInvariantViolation::NameInteriorNul);
        }
        Ok(DriverName { bytes })
    }

    /// The name's bytes.
    pub fn as_bytes(&self) -> (r: &Vec<u8>)
        ensures
            r@ == self@,
    {
        &self.bytes
    }

    /// A fresh vector holding the name's bytes, as written into a
    /// descriptor's name field. An accepted name always satisfies the
    /// buffer invariant, so the copy does too.
    pub(crate) fn to_vec(&self) -> (r: Vec<u8>)
        ensures
            r@ == self@,
            valid_name(r@),
    {
        proof {
            use_type_invariant(self);
        }
        copy_bytes(&self.bytes)
    }
}

/// One identifier-table entry: a device name the host matches on, and an
/// opaque one-word payload handed to the driver on a match.
pub struct SpiDeviceId {
    name: Vec<u8>,
    data: usize,
}

impl SpiDeviceId {
    #[verifier::type_invariant]
    closed spec fn inv(&self) -> bool {
        valid_name(self.name@)
    }

    /// The entry's name.
    pub closed spec fn spec_name(&self) -> Seq<u8> {
        self.name@
    }

    /// The entry's payload word.
    pub closed spec fn spec_data(&self) -> usize {
        self.data
    }

    /// Accepts (name, data word) as a table entry, with the same name
    /// invariants as a driver name. The payload is a `usize`, one machine
    /// word by construction, so its size cannot mismatch.
    pub fn new(name: Vec<u8>, data: usize) -> (r: Result<SpiDeviceId, BuildTimeInvariantViolation>)
        ensures
            r is Ok <==> valid_name(name@),
            r matches Ok(e) ==> e.spec_name() == name@ && e.spec_data() == data,
            name@.len() >= SPI_NAME_SIZE ==> r == Err::<SpiDeviceId, _>(
                BuildTimeInvariantViolation::NameTooLong,
            ),
            name@.len() < SPI_NAME_SIZE && !valid_name(name@) ==> r == Err::<SpiDeviceId, _>(
                BuildTimeInvariantViolation::NameInteriorNul,
            ),
    {
        if name.len() >= SPI_NAME_SIZE {
            return Err(BuildTimeInvariantViolation::NameTooLong);
        }
        if has_interior_nul(&name) {
            return Err(BuildTimeInvariantViolation::NameInteriorNul);
        }
        Ok(SpiDeviceId { name, data })
    }

    /// The entry's name bytes.
    pub fn name(&self) -> (r: &Vec<u8>)
        ensures
            r@ == self.spec_name(),
    {
        &self.name
    }

    /// The entry's payload word.
    pub fn data(&self) -> (r: usize)
        ensures
            r == self.spec_data(),
    {
        self.data
    }
}

/// The identifier table a registration hands to the host: a sequence of
/// accepted entries, owned by the registration for the host to read.
pub struct IdTable {
    entries: Vec<SpiDeviceId>,
}

impl View for IdTable {
    type V = Seq<SpiDeviceId>;

    closed spec fn view(&self) -> Seq<SpiDeviceId> {
        self.entries@
    }
}

impl IdTable {
    /// An empty table.
    pub fn new() -> (r: IdTable)
        ensures
            r@ == Seq::<SpiDeviceId>::empty(),
    {
        IdTable { entries: Vec::new() }
    }

    /// Appends an entry.
    pub fn push(&mut self, entry: SpiDeviceId)
        ensures
            final(self)@ == old(self)@.push(entry),
    {
        self.entries.push(entry);
    }

    /// Number of entries.
    pub fn len(&self) -> (r: usize)
        ensures
            r == self@.len(),
    {
        self.entries.len()
    }

    /// The entry at `i`.
    pub fn get(&self, i: usize) -> (r: &SpiDeviceId)
        requires
            i < self@.len(),
        ensures
            *r == self@[i as int],
    {
        &self.entries[i]
    }
}

} // verus!
