//! Fixed-point vector types.
//!
//! Components carry their numeric data as integers scaled by [`FIXED_ONE`];
//! the rendering host divides by the scale when it converts a value to the
//! floating-point form its linear-algebra library expects. Keeping the data
//! integral lets every function that touches it be verified.

use vstd::prelude::*;

verus! {

/// The fixed-point scale: a stored value of `FIXED_ONE` means `1.0`.
pub const FIXED_ONE: i64 = 1000;

/// A three-component fixed-point vector.
#[derive(Clone, Copy, PartialEq, Eq, Structural, Debug)]
pub struct Fixed3 {
    pub x: i64,
    pub y: i64,
    pub z: i64,
}

/// A four-component fixed-point vector, used for quaternions.
#[derive(Clone, Copy, PartialEq, Eq, Structural, Debug)]
pub struct Fixed4 {
    pub x: i64,
    pub y: i64,
    pub z: i64,
    pub w: i64,
}

impl Fixed3 {
    /// Builds the vector `(x, y, z)`.
    pub fn new(x: i64, y: i64, z: i64) -> (r: Fixed3)
        ensures
            r == (Fixed3 { x, y, z }),
    {
        Fixed3 { x, y, z }
    }
}

impl Fixed4 {
    /// Builds the vector `(x, y, z, w)`.
    pub fn new(x: i64, y: i64, z: i64, w: i64) -> (r: Fixed4)
        ensures
            r == (Fixed4 { x, y, z, w }),
    {
        Fixed4 { x, y, z, w }
    }

    /// The identity quaternion `(0, 0, 0, 1)` at the fixed-point scale.
    pub fn identity_quat() -> (r: Fixed4)
        ensures
            r == (Fixed4 { x: 0, y: 0, z: 0, w: FIXED_ONE }),
    {
        Fixed4 { x: 0, y: 0, z: 0, w: FIXED_ONE }
    }
}

} // verus!
