//! Who a caller is: the 32-byte key under which the host knows an account.

use vstd::prelude::*;
use vstd::std_specs::cmp::PartialEqSpecImpl;

verus! {

/// Number of bytes in an [`Identity`].
pub const IDENTITY_LEN: usize = 32;

/// The identity of a staker or of the vault's authority. Two identities are the
/// same when their bytes are. The ledger never asks how a caller proved to be who
/// they say: the host has settled that before it calls.
#[derive(Clone, Copy, Debug)]
pub struct Identity {
    pub bytes: [u8; 32],
}

impl View for Identity {
    type V = Seq<u8>;

    open spec fn view(&self) -> Seq<u8> {
        self.bytes@
    }
}

impl Identity {
    /// The identity with the given key bytes.
    pub fn new(bytes: [u8; 32]) -> (id: Identity)
        ensures
            id.bytes == bytes,
            id@ == bytes@,
    {
        Identity { bytes }
    }

    /// The key bytes.
    pub fn to_bytes(&self) -> (bytes: [u8; 32])
        ensures
            bytes == self.bytes,
            bytes@ == self@,
    {
        self.bytes
    }

    /// Identities with the same bytes are the same identity.
    pub proof fn lemma_same_bytes(self, other: Identity)
        ensures
            (self == other) <==> (self@ == other@),
    {
        broadcast use vstd::array::group_array_axioms;

        if self@ == other@ {
            assert forall|i: int| 0 <= i < 32 implies self.bytes[i] == other.bytes[i] by {
                assert(self@[i] == other@[i]);
            }
            assert(self.bytes =~= other.bytes);
        }
    }
}

impl PartialEq for Identity {
    fn eq(&self, other: &Identity) -> (same: bool) {
        let mut i: usize = 0;
        while i < IDENTITY_LEN
            invariant
                i <= IDENTITY_LEN,
                forall|k: int| 0 <= k < i ==> self@[k] == other@[k],
            decreases IDENTITY_LEN - i,
        {
            if self.bytes[i] != other.bytes[i] {
                proof {
                    self.lemma_same_bytes(*other);
                }
                return false;
            }
            i += 1;
        }
        proof {
            assert(self@ =~= other@);
            self.lemma_same_bytes(*other);
        }
        true
    }
}

impl Eq for Identity {

}

impl PartialEqSpecImpl for Identity {
    open spec fn obeys_eq_spec() -> bool {
        true
    }

    open spec fn eq_spec(&self, other: &Identity) -> bool {
        *self == *other
    }
}

} // verus!
