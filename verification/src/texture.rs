//! The texture component.

use vstd::prelude::*;

verus! {

/// A handle to a texture object owned by the graphics API. Loading image
/// data and creating the object happen in the host; the component only
/// carries the resulting handle.
#[derive(Clone, Copy, PartialEq, Eq, Structural, Debug)]
pub struct Texture {
    pub id: u32,
}

impl Texture {
    /// Wraps a graphics-API texture handle.
    pub fn new(id: u32) -> (r: Texture)
        ensures
            r == (Texture { id }),
    {
        Texture { id }
    }
}

} // verus!
