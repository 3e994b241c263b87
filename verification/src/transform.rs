//! The transform component: position, rotation and scale.

use vstd::prelude::*;

use crate::fixed::{Fixed3, Fixed4, FIXED_ONE};

verus! {

/// Position, rotation and scale of an entity, in fixed-point units.
///
/// Matrix construction, inversion and quaternion rotation are the
/// linear-algebra library's business and happen in the host, which converts
/// these fields to floating point first.
#[derive(Clone, Copy, PartialEq, Eq, Structural, Debug)]
pub struct Transform {
    pub position: Fixed3,
    pub rotation: Fixed4,
    pub scale: Fixed3,
}

impl Transform {
    /// A transform at position `(x, y, z)` with identity rotation and unit
    /// scale.
    pub fn from_xyz(x: i64, y: i64, z: i64) -> (r: Transform)
        ensures
            r.position == (Fixed3 { x, y, z }),
            r.rotation == (Fixed4 { x: 0, y: 0, z: 0, w: FIXED_ONE }),
            r.scale == (Fixed3 { x: FIXED_ONE, y: FIXED_ONE, z: FIXED_ONE }),
    {
        Transform {
            position: Fixed3::new(x, y, z),
            rotation: Fixed4::identity_quat(),
            scale: Fixed3::new(FIXED_ONE, FIXED_ONE, FIXED_ONE),
        }
    }

    /// The same transform with its rotation replaced by `rotation`.
    pub fn with_rotation(self, rotation: Fixed4) -> (r: Transform)
        ensures
            r == (Transform { rotation, ..self }),
    {
        Transform { rotation, ..self }
    }

    /// The same transform with its scale replaced by `(x, y, z)`.
    pub fn with_scale(self, x: i64, y: i64, z: i64) -> (r: Transform)
        ensures
            r == (Transform { scale: Fixed3 { x, y, z }, ..self }),
    {
        Transform { scale: Fixed3::new(x, y, z), ..self }
    }
}

} // verus!
