//! Account identifiers.

use vstd::prelude::*;

verus! {

/// A 32-byte account identifier (the address of a program or user).
#[derive(Clone, Copy, Debug)]
pub struct ActorId {
    pub bytes: [u8; 32],
}

impl ActorId {
    /// The identifier made of the given 32 bytes.
    pub fn new(bytes: [u8; 32]) -> (id: ActorId)
        ensures
            id.bytes == bytes,
    {
        ActorId { bytes }
    }

    /// Whether every byte of the identifier is zero.
    pub open spec fn spec_is_zero(&self) -> bool {
        forall|i: int| 0 <= i < 32 ==> self.bytes[i] == 0
    }

    /// The all-zero identifier, which names no account.
    pub fn zero() -> (id: ActorId)
        ensures
            id.spec_is_zero(),
    {
        ActorId { bytes: [0u8; 32] }
    }

    /// The identifier's bytes.
    pub fn into_bytes(self) -> (bytes: [u8; 32])
        ensures
            bytes == self.bytes,
    {
        self.bytes
    }

    /// Whether this is the all-zero identifier.
    pub fn is_zero(&self) -> (r: bool)
        ensures
            r == self.spec_is_zero(),
    {
        let mut i: usize = 0;
        while i < 32
            invariant
                i <= 32,
                forall|j: int| 0 <= j < i ==> self.bytes[j] == 0,
            decreases 32 - i,
        {
            if self.bytes[i] != 0 {
                return false;
            }
            i = i + 1;
        }
        true
    }
}

impl PartialEq for ActorId {
    fn eq(&self, other: &ActorId) -> (r: bool) {
        let mut i: usize = 0;
        while i < 32
            invariant
                i <= 32,
                forall|j: int| 0 <= j < i ==> self.bytes[j] == other.bytes[j],
            decreases 32 - i,
        {
            if self.bytes[i] != other.bytes[i] {
                return false;
            }
            i = i + 1;
        }
        assert(self.bytes =~= other.bytes);
        true
    }
}

impl vstd::std_specs::cmp::PartialEqSpecImpl for ActorId {
    open spec fn obeys_eq_spec() -> bool {
        true
    }

    open spec fn eq_spec(&self, other: &ActorId) -> bool {
        *self == *other
    }
}

impl Eq for ActorId {
}

} // verus!
