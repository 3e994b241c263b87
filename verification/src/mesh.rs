//! The mesh component.

use vstd::prelude::*;

verus! {

/// A handle to geometry uploaded to the graphics API: the vertex-array
/// object and the number of indices to draw. Buffer creation and the draw
/// call itself happen in the host.
#[derive(Clone, Copy, PartialEq, Eq, Structural, Debug)]
pub struct Mesh {
    pub vao: u32,
    pub indices_count: i32,
}

impl Mesh {
    /// Wraps an uploaded vertex-array object and its index count.
    pub fn new(vao: u32, indices_count: i32) -> (r: Mesh)
        ensures
            r == (Mesh { vao, indices_count }),
    {
        Mesh { vao, indices_count }
    }
}

} // verus!
