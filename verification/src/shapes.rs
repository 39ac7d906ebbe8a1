//! Rectangles: area, containment, and squares.

use vstd::prelude::*;

verus! {

/// A rectangle measured in whole pixels.
#[derive(Debug)]
pub struct Rectangle {
    pub length: u32,
    pub width: u32,
}

impl Rectangle {
    /// The rectangle's area, exact; the dimensions must not overflow the
    /// pixel count.
    pub fn area(&self) -> (r: u32)
        requires
            self.length * self.width <= u32::MAX,
        ensures
            r == self.length * self.width,
    {
        self.length * self.width
    }

    /// Whether `other` fits strictly inside `self` in both dimensions.
    pub fn can_hold(&self, other: &Rectangle) -> (r: bool)
        ensures
            r == (self.length > other.length && self.width > other.width),
    {
        self.length > other.length && self.width > other.width
    }

    /// The square with the given side.
    pub fn square(size: u32) -> (r: Rectangle)
        ensures
            r.length == size,
            r.width == size,
    {
        Rectangle { length: size, width: size }
    }
}

/// The area of a rectangle passed by reference, same as the method.
pub fn area(dims: &Rectangle) -> (r: u32)
    requires
        dims.length * dims.width <= u32::MAX,
    ensures
        r == dims.length * dims.width,
{
    dims.length * dims.width
}

} // verus!
