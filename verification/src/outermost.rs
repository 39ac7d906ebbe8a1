//! Module-privacy demonstration: a public module whose private items are
//! reachable from its own nested modules but from nowhere else.

pub mod inside;

use vstd::prelude::*;

verus! {

pub fn middle_function() {
}

pub(in crate::outermost) fn middle_secret_function() {
}

} // verus!
