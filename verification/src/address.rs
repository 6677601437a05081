//! Addresses of accounts and contracts.
use vstd::prelude::*;

verus! {

/// An account or a contract on the ledger, by the 56 characters of its
/// textual form (`G...` or `C...`). Two addresses are the same exactly when
/// their texts are.
#[derive(Clone, Copy, Debug)]
pub struct Address {
    pub strkey: [u8; 56],
}

impl PartialEq for Address {
    fn eq(&self, other: &Self) -> (same: bool) {
        let mut i: usize = 0;
        while i < 56
            invariant
                i <= 56,
                forall|k: int| 0 <= k < i ==> self.strkey[k] == other.strkey[k],
            decreases 56 - i,
        {
            if self.strkey[i] != other.strkey[i] {
                return false;
            }
            i += 1;
        }
        assert(self.strkey =~= other.strkey);
        true
    }
}

impl Eq for Address {

}

impl vstd::std_specs::cmp::PartialEqSpecImpl for Address {
    open spec fn obeys_eq_spec() -> bool {
        true
    }

    open spec fn eq_spec(&self, other: &Self) -> bool {
        *self == *other
    }
}

} // verus!
