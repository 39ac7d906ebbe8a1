//! The network half of the communicator demonstration; connecting goes
//! through the private server module.

mod server;

use vstd::prelude::*;

verus! {

pub fn connect() {
    crate::network::server::connect();
}

} // verus!
