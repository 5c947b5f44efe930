//! Who can pay, be paid, and answer for a contract.

use vstd::prelude::*;
use vstd::std_specs::cmp::PartialEqSpecImpl;

verus! {

/// Address of a contract instance on the chain.
#[derive(Clone, Copy, Debug, PartialEq, Eq, Structural)]
pub struct ContractAddress {
    pub index: u64,
    pub subindex: u64,
}

/// Address of an account on the chain.
#[derive(Clone, Copy, Debug)]
pub struct AccountAddress {
    pub bytes: [u8; 32],
}

/// A holder of value: an account or a contract instance.
#[derive(Clone, Copy, Debug)]
pub enum Identity {
    Account(AccountAddress),
    Contract(ContractAddress),
}

impl PartialEq for AccountAddress {
    fn eq(&self, other: &AccountAddress) -> (same: bool) {
        let mut i: usize = 0;
        while i < 32
            invariant
                i <= 32,
                forall|j: int| 0 <= j < i ==> self.bytes[j] == other.bytes[j],
            decreases 32 - i,
        {
            if self.bytes[i] != other.bytes[i] {
                return false;
            }
            i += 1;
        }
        assert(self.bytes =~= other.bytes);
        true
    }
}

impl PartialEqSpecImpl for AccountAddress {
    open spec fn obeys_eq_spec() -> bool {
        true
    }

    open spec fn eq_spec(&self, other: &AccountAddress) -> bool {
        *self == *other
    }
}

impl Eq for AccountAddress {}

impl PartialEq for Identity {
    fn eq(&self, other: &Identity) -> (same: bool) {
        match (self, other) {
            (Identity::Account(a), Identity::Account(b)) => a == b,
            (Identity::Contract(a), Identity::Contract(b)) => a == b,
            _ => false,
        }
    }
}

impl PartialEqSpecImpl for Identity {
    open spec fn obeys_eq_spec() -> bool {
        true
    }

    open spec fn eq_spec(&self, other: &Identity) -> bool {
        *self == *other
    }
}

impl Eq for Identity {}

} // verus!
