//! Public identities: auctioneers, bidders, record addresses, programs.

use vstd::prelude::*;

verus! {

/// A 32-byte public identity. Two identities are the same party exactly when
/// all their bytes agree.
#[derive(Clone, Copy, Debug, PartialEq, Eq, Hash)]
pub struct Identity {
    pub bytes: [u8; 32],
}

impl Identity {
    /// The identity with the given bytes.
    pub fn new(bytes: [u8; 32]) -> (r: Identity)
        ensures
            r.bytes == bytes,
    {
        Identity { bytes }
    }

    /// Whether `self` and `other` are the same identity.
    pub fn same(&self, other: &Identity) -> (r: bool)
        ensures
            r == (*self == *other),
    {
        let mut i: usize = 0;
        while i < 32
            invariant
                i <= 32,
                forall|j: int| 0 <= j < i ==> self.bytes[j] == other.bytes[j],
            decreases 32 - i,
        {
            if self.bytes[i] != other.bytes[i] {
                return false;
            }
            i += 1;
        }
        proof {
            assert(self.bytes =~= other.bytes);
        }
        true
    }
}

/// Whether an optional identity is present and the same as `who`.
pub fn is_identity(slot: &Option<Identity>, who: &Identity) -> (r: bool)
    ensures
        r == (*slot == Some(*who)),
{
    match slot {
        Some(id) => id.same(who),
        None => false,
    }
}

} // verus!
