//! The camera component: perspective-projection parameters.

use vstd::prelude::*;

verus! {

/// Perspective-projection parameters of a viewing entity, in fixed-point
/// units. The projection matrix itself is built by the host's
/// linear-algebra library.
#[derive(Clone, Copy, PartialEq, Eq, Structural, Debug)]
pub struct Camera {
    pub fov_y: i64,
    pub near: i64,
    pub far: i64,
    pub aspect_ratio: i64,
}

impl Camera {
    /// Builds a camera from its four projection parameters.
    pub fn new(fov_y: i64, near: i64, far: i64, aspect_ratio: i64) -> (r: Camera)
        ensures
            r == (Camera { fov_y, near, far, aspect_ratio }),
    {
        Camera { fov_y, near, far, aspect_ratio }
    }
}

} // verus!
