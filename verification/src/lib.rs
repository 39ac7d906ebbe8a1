//! A small bounded-concurrency task dispatcher — a fixed pool of workers that
//! consume units of work from a shared FIFO queue and shut down
//! deterministically — together with a collection of smaller verified
//! utilities (text search, memoized computation, simple geometry and
//! bookkeeping types) that grew alongside it.

pub mod adder;
pub mod aggregate;
pub mod client;
pub mod closures;
pub mod counters;
pub mod fn_values;
pub mod generics;
pub mod graphs;
pub mod gui;
pub mod http;
pub mod lifetimes;
pub mod minigrep;
pub mod network;
pub mod ownership;
pub mod parsing;
pub mod pool;
pub mod shapes;
pub mod smart_ptrs;
pub mod text;
pub mod tracker;
pub mod users;

use vstd::prelude::*;

verus! {

/// Exercises the visibility rules of the privacy demonstration modules:
/// a sibling may call a public function of a module, and a public function
/// of a public nested module.
pub fn try_me() {
    crate::outermost::middle_function();
    crate::outermost::inside::inner_function();
}

} // verus!

pub mod outermost;
pub mod series;
