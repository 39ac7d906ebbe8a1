use vstd::prelude::*;

verus! {

/// A nested module may reach upward to items of its ancestors.
pub fn inner_function() {
    crate::outermost::middle_secret_function();
}

#[allow(dead_code)]
fn secret_function() {
}

} // verus!
