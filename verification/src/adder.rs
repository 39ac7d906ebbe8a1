//! Small testing-chapter utilities: a guarded guess, a greeting, an
//! increment by two, and rectangle containment.

use vstd::prelude::*;

verus! {

/// A guessing-game guess; only values from 1 to 100 are representable.
pub struct Guess {
    value: u32,
}

impl Guess {
    /// The guessed value.
    pub closed spec fn spec_value(&self) -> u32 {
        self.value
    }

    /// Wrap a guess; values outside 1..=100 are not guesses at all and
    /// are ruled out before construction.
    pub fn new(value: u32) -> (r: Guess)
        requires
            1 <= value <= 100,
        ensures
            r.spec_value() == value,
    {
        Guess { value }
    }
}

/// The greeting for `name`, exactly `Hello <name>!`.
pub fn greeting(name: &str) -> (r: String)
    ensures
        r@ == "Hello "@ + name@ + "!"@,
{
    let mut out = "Hello ".to_owned();
    out.append(name);
    out.append("!");
    out
}

/// Two more than the argument.
pub fn add_two(a: i32) -> (r: i32)
    requires
        a <= i32::MAX - 2,
    ensures
        r == a + 2,
{
    a + 2
}

/// A rectangle, for the containment check below.
#[derive(Debug)]
pub struct Rectangle {
    pub length: u32,
    pub width: u32,
}

impl Rectangle {
    /// Whether `other` fits strictly inside `self` in both dimensions.
    pub fn can_hold(&self, other: &Rectangle) -> (r: bool)
        ensures
            r == (self.length > other.length && self.width > other.width),
    {
        self.length > other.length && self.width > other.width
    }
}

} // verus!
