use vstd::prelude::*;

verus! {

pub(super) fn connect() {
}

} // verus!
