//! Two ways to abstract over a graph — generic parameters and associated
//! types — with the distance stubs that compare them, and a pair of
//! same-named associated functions told apart by their trait.

use vstd::prelude::*;

verus! {

/// A graph abstracted over node and edge type parameters.
pub trait GGraph<Node, Edge> {
}

/// A graph whose node and edge types are associated types.
pub trait AGraph {
    type Node;

    type Edge;
}

/// The distance between two nodes of a parameter-generic graph; the
/// metric is not implemented, so every distance is zero.
pub fn distance_gg<N, E, G: GGraph<N, E>>(graph: &G, start: &N, end: &N) -> (r: u32)
    ensures
        r == 0,
{
    0
}

/// The same distance stub for an associated-type graph; no edge type
/// needs naming.
pub fn distance_ag<G: AGraph>(graph: &G, start: &G::Node, end: &G::Node) -> (r: u32)
    ensures
        r == 0,
{
    0
}

/// Walk a graph whose associated types are pinned to concrete ones.
pub fn traverse<G: AGraph<Node = usize, Edge = (usize, usize)>>(graph: &G) {
}

/// Animals name their young; `Dog` also has a name of its own for them.
pub trait Animal {
    fn baby_name() -> String;
}

pub struct Dog;

impl Dog {
    /// What this dog calls a puppy: its own name.
    pub fn baby_name() -> (r: String)
        ensures
            r@ == "Spot"@,
    {
        "Spot".to_owned()
    }
}

impl Animal for Dog {
    fn baby_name() -> String {
        "puppy".to_owned()
    }
}

} // verus!
