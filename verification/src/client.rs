//! The client half of the communicator demonstration.

use vstd::prelude::*;

verus! {

pub fn connect() {
}

} // verus!
