//! Identities of the parties that act on the oracle, and the balances they hold.

use vstd::prelude::*;

verus! {

/// A 32-byte identity of a party: a creator, a proposer, a disputer or the administrator.
#[derive(Clone, Copy, Debug, Eq)]
pub struct Principal {
    pub bytes: [u8; 32],
}

impl PartialEq for Principal {
    /// Two identities are equal when all 32 bytes agree.
    fn eq(&self, other: &Principal) -> (r: bool) {
        let mut i: usize = 0;
        while i < 32
            invariant
                i <= 32,
                forall|k: int| 0 <= k < i ==> self.bytes[k] == other.bytes[k],
            decreases 32 - i,
        {
            if self.bytes[i] != other.bytes[i] {
                return false;
            }
            i += 1;
        }
        proof {
            vstd::array::axiom_array_ext_equal(self.bytes, other.bytes);
        }
        true
    }
}

impl vstd::std_specs::cmp::PartialEqSpecImpl for Principal {
    open spec fn obeys_eq_spec() -> bool {
        true
    }

    open spec fn eq_spec(&self, other: &Principal) -> bool {
        *self == *other
    }
}

impl Principal {
    /// Whether all 32 bytes are zero.
    pub open spec fn is_zero(self) -> bool {
        forall|i: int| 0 <= i < 32 ==> self.bytes[i] == 0
    }
}

impl Default for Principal {
    /// The identity of all zero bytes.
    fn default() -> (r: Principal)
        ensures
            r.is_zero(),
    {
        Principal { bytes: [0u8; 32] }
    }
}

/// The balance that a party holds on the ledger, in the ledger's smallest unit.
#[derive(Clone, Copy, Debug, PartialEq, Eq)]
pub struct Wallet {
    pub key: Principal,
    pub lamports: u64,
}

} // verus!
