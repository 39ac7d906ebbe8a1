//! Smart-pointer-chapter types: a box of one's own, and a cons list with
//! a tail accessor.

use vstd::prelude::*;

verus! {

/// A minimal owning wrapper around a single value.
pub struct MyBox<T>(pub T);

impl<T> MyBox<T> {
    /// Wrap `x`.
    pub fn new(x: T) -> (r: MyBox<T>)
        ensures
            r.0 == x,
    {
        MyBox(x)
    }
}

/// A cons list of integers.
pub enum List {
    Cons(i32, Box<List>),
    Nil,
}

impl List {
    /// The rest of the list after its first element, or nothing for the
    /// empty list.
    pub fn tail(&self) -> (r: Option<&Box<List>>)
        ensures
            self matches List::Cons(_v, rest) ==> (r matches Some(t) && *t == rest),
            self is Nil ==> r is None,
    {
        match self {
            List::Cons(_, item) => Some(item),
            List::Nil => None,
        }
    }
}

} // verus!
