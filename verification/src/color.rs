//! The color component.

use vstd::prelude::*;

use crate::fixed::Fixed3;

verus! {

/// An RGB color attached to an entity, in fixed-point units.
#[derive(Clone, Copy, PartialEq, Eq, Structural, Debug)]
pub struct Color {
    pub color: Fixed3,
}

impl Color {
    /// Builds the color `(r, g, b)`.
    pub fn new(r: i64, g: i64, b: i64) -> (c: Color)
        ensures
            c.color == (Fixed3 { x: r, y: g, z: b }),
    {
        Color { color: Fixed3 { x: r, y: g, z: b } }
    }
}

} // verus!
