//! Equality of amounts: by the number, not by the bytes that hold it.

use crate::amount::Amount;
use vstd::prelude::*;
use vstd::std_specs::cmp::PartialEqSpecImpl;

verus! {

impl PartialEq for Amount {
    fn eq(&self, other: &Amount) -> (same: bool) {
        self.same_value(other)
    }
}

impl PartialEqSpecImpl for Amount {
    open spec fn obeys_eq_spec() -> bool {
        true
    }

    open spec fn eq_spec(&self, other: &Amount) -> bool {
        self@ == other@
    }
}

impl Eq for Amount {

}

} // verus!
