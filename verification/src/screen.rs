//! Components that can be drawn, and screens that hold them.

use vstd::prelude::*;

verus! {

/// Something that can be drawn.
pub trait Draw {
    /// Draws the component.
    fn draw(&self);
}

/// A screen whose components may be of different types.
pub struct Screen {
    pub components: Vec<Box<dyn Draw>>,
}

/// A screen whose components are all of one type.
pub struct OtherScreen<T: Draw> {
    pub components: Vec<T>,
}

impl<T> OtherScreen<T> where T: Draw {
    /// Draws every component, first to last.
    pub fn run(&self) {
        for i in 0..self.components.len() {
            self.components[i].draw();
        }
    }
}

impl Screen {
    /// Draws every component, first to last.
    pub fn run(&self) {
        for i in 0..self.components.len() {
            self.components[i].draw();
        }
    }
}

/// A button with a label.
pub struct Button {
    pub width: u32,
    pub height: u32,
    pub label: String,
}

impl Draw for Button {
    fn draw(&self) {
    }
}

} // verus!
