//! The 32-byte identity type shared by real chain accounts and derived
//! stealth addresses.

use vstd::prelude::*;

verus! {

/// A 32-byte identity.  A value of this type is either a real account
/// known to the host chain or a stealth address derived from a username
/// and a salt; the two are indistinguishable by construction.  Equality
/// is exact byte equality.
#[derive(Debug, Clone, Copy, PartialEq, Eq)]
pub struct AccountId {
    pub bytes: [u8; 32],
}

impl View for AccountId {
    type V = Seq<u8>;

    open spec fn view(&self) -> Seq<u8> {
        self.bytes@
    }
}

impl AccountId {
    /// Byte-for-byte comparison of two identities.
    pub fn eq_bytes(&self, other: &AccountId) -> (r: bool)
        ensures
            r == (self@ == other@),
    {
        let mut i: usize = 0;
        while i < 32
            invariant
                i <= 32,
                forall|j: int| 0 <= j < i ==> self.bytes@[j] == other.bytes@[j],
            decreases 32 - i,
        {
            if self.bytes[i] != other.bytes[i] {
                assert(self@[i as int] != other@[i as int]);
                return false;
            }
            i += 1;
        }
        proof {
            assert(self@ =~= other@);
        }
        true
    }
}

} // verus!
