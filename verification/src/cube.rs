//! Cube geometry: vertex and index data for an axis-aligned box.

use vstd::prelude::*;

use crate::fixed::FIXED_ONE;

verus! {

/// The negation of a small fixed-point value.
pub open spec fn neg64(x: i64) -> i64 {
    (0 - x as int) as i64
}

/// The interleaved vertex data of a box with half-extents `w`, `h`, `l`:
/// eight vertices, each as position, texture coordinates and vertex color,
/// all at the fixed-point scale.
pub open spec fn cube_vertices(w: i64, h: i64, l: i64) -> Seq<i64> {
    seq![
        // front face
        neg64(w), neg64(h), l, 0, 0, FIXED_ONE, FIXED_ONE, FIXED_ONE,
        w, neg64(h), l, FIXED_ONE, 0, FIXED_ONE, FIXED_ONE, FIXED_ONE,
        w, h, l, FIXED_ONE, FIXED_ONE, FIXED_ONE, FIXED_ONE, FIXED_ONE,
        neg64(w), h, l, 0, FIXED_ONE, FIXED_ONE, FIXED_ONE, FIXED_ONE,
        // back face
        neg64(w), neg64(h), neg64(l), FIXED_ONE, 0, FIXED_ONE, FIXED_ONE, FIXED_ONE,
        w, neg64(h), neg64(l), 0, 0, FIXED_ONE, FIXED_ONE, FIXED_ONE,
        w, h, neg64(l), 0, FIXED_ONE, FIXED_ONE, FIXED_ONE, FIXED_ONE,
        neg64(w), h, neg64(l), FIXED_ONE, FIXED_ONE, FIXED_ONE, FIXED_ONE, FIXED_ONE,
    ]
}

/// The triangle indices of the box: two triangles per face, six faces.
pub open spec fn cube_indices() -> Seq<u32> {
    seq![
        0u32, 1, 2, 2, 3, 0, // front
        4, 5, 6, 6, 7, 4, // back
        4, 0, 3, 3, 7, 4, // left
        1, 5, 6, 6, 2, 1, // right
        3, 2, 6, 6, 7, 3, // top
        4, 5, 1, 1, 0, 4, // bottom
    ]
}

/// Builds cube geometry. The host uploads the data to the graphics API and
/// wraps the result in a [`crate::mesh::Mesh`].
pub struct Cube;

impl Cube {
    /// The vertex and index data of a box with the given fixed-point
    /// dimensions, centered on the origin.
    pub fn new(width: i64, height: i64, length: i64) -> (r: (Vec<i64>, Vec<u32>))
        requires
            0 <= width,
            0 <= height,
            0 <= length,
        ensures
            r.0@ == cube_vertices((width / 2) as i64, (height / 2) as i64, (length / 2) as i64),
            r.1@ == cube_indices(),
    {
        let w = width / 2;
        let h = height / 2;
        let l = length / 2;
        let nw = -w;
        let nh = -h;
        let nl = -l;

        let vertices: Vec<i64> = vec![
            // front face
            nw, nh, l, 0, 0, FIXED_ONE, FIXED_ONE, FIXED_ONE,
            w, nh, l, FIXED_ONE, 0, FIXED_ONE, FIXED_ONE, FIXED_ONE,
            w, h, l, FIXED_ONE, FIXED_ONE, FIXED_ONE, FIXED_ONE, FIXED_ONE,
            nw, h, l, 0, FIXED_ONE, FIXED_ONE, FIXED_ONE, FIXED_ONE,
            // back face
            nw, nh, nl, FIXED_ONE, 0, FIXED_ONE, FIXED_ONE, FIXED_ONE,
            w, nh, nl, 0, 0, FIXED_ONE, FIXED_ONE, FIXED_ONE,
            w, h, nl, 0, FIXED_ONE, FIXED_ONE, FIXED_ONE, FIXED_ONE,
            nw, h, nl, FIXED_ONE, FIXED_ONE, FIXED_ONE, FIXED_ONE, FIXED_ONE,
        ];

        let indices: Vec<u32> = vec![
            0, 1, 2, 2, 3, 0, // front
            4, 5, 6, 6, 7, 4, // back
            4, 0, 3, 3, 7, 4, // left
            1, 5, 6, 6, 2, 1, // right
            3, 2, 6, 6, 7, 3, // top
            4, 5, 1, 1, 0, 4, // bottom
        ];

        proof {
            assert(vertices@ =~= cube_vertices(
                (width / 2) as i64,
                (height / 2) as i64,
                (length / 2) as i64,
            ));
            assert(indices@ =~= cube_indices());
        }
        (vertices, indices)
    }
}

} // verus!
