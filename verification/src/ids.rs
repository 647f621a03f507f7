//! Plain-value account identities. Every address the adapter reasons about is
//! modelled as its 32 raw bytes, so that equality of identities is plain byte
//! equality.

use vstd::prelude::*;

verus! {

/// A 32-byte ledger address: the library's plain-value form of a public key.
#[derive(Clone, Copy, Debug, PartialEq, Eq)]
pub struct AccountId {
    pub bytes: [u8; 32],
}

impl AccountId {
    /// True of the all-zero identity, the placeholder recorded for fields that
    /// initialization leaves unset.
    pub open spec fn is_zero(self) -> bool {
        forall|i: int| 0 <= i < 32 ==> self.bytes@[i] == 0u8
    }

    /// Builds the all-zero placeholder identity.
    pub fn zero() -> (r: AccountId)
        ensures
            r.is_zero(),
    {
        AccountId { bytes: [0u8; 32] }
    }

    /// Byte-for-byte equality of two identities.
    pub fn eq_id(&self, other: &AccountId) -> (r: bool)
        ensures
            r <==> *self == *other,
    {
        let mut i: usize = 0;
        while i < 32
            invariant
                i <= 32,
                forall|j: int| 0 <= j < i ==> self.bytes@[j] == other.bytes@[j],
            decreases 32 - i,
        {
            if self.bytes[i] != other.bytes[i] {
                return false;
            }
            i = i + 1;
        }
        proof {
            assert(self.bytes =~= other.bytes);
        }
        true
    }
}

} // verus!
