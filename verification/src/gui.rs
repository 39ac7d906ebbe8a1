//! A screen of drawable components: every component of a screen is drawn
//! once, in order, when the screen runs.

use vstd::prelude::*;

verus! {

/// Something the screen can draw.
pub trait Draw {
    fn draw(&self);
}

/// A screen holds drawable components of one kind and draws each of them
/// when run.
pub struct Screen<T: Draw> {
    pub components: Vec<T>,
}

impl<T: Draw> Screen<T> {
    pub fn run(&self) {
        let mut i: usize = 0;
        while i < self.components.len()
            invariant
                i <= self.components@.len(),
            decreases self.components@.len() - i,
        {
            let component = &self.components[i];
            component.draw();
            i = i + 1;
        }
    }
}

/// A push button with a size and a label.
pub struct Button {
    pub width: u32,
    pub height: u32,
    pub label: String,
}

impl Draw for Button {
    fn draw(&self) {
    }
}

} // verus!
