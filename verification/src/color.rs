//! Colours that know their names.

use vstd::prelude::*;

verus! {

/// A primary colour.
#[derive(Clone, Copy, PartialEq, Eq, Debug, Structural)]
pub enum Color {
    Red,
    Green,
    Blue,
}

impl Color {
    /// The colour's name as it is written in the source.
    pub fn name(&self) -> (name: &'static str)
        ensures
            name@ == match *self {
                Color::Red => "Red"@,
                Color::Green => "Green"@,
                Color::Blue => "Blue"@,
            },
    {
        match self {
            Color::Red => "Red",
            Color::Green => "Green",
            Color::Blue => "Blue",
        }
    }
}

} // verus!
