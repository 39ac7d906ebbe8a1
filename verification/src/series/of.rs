use vstd::prelude::*;

verus! {

pub fn nested_modules() {
}

} // verus!
