//! The flat meshes of the textured effect: which vertices make each
//! triangle. The vertices themselves are the caller's.

use vstd::prelude::*;

verus! {

/// The vertices of the circle: the centre and eight points on the rim.
pub const CIRCLE_VERTEX_COUNT: usize = 9;

/// The vertices of the pentagon.
pub const PENTAGON_VERTEX_COUNT: usize = 5;

/// The circle as a fan of eight triangles around its centre, vertex 0.
pub const CIRCLE_INDICES: [u16; 24] = [
    0, 1, 2, 0, 2, 3, 0, 3, 4, 0, 4, 5, 0, 5, 6, 0, 6, 7, 0, 7, 8, 0, 8, 1,
];

/// The pentagon as three triangles.
pub const PENTAGON_INDICES: [u16; 9] = [0, 1, 4, 1, 2, 4, 2, 3, 4];

/// Every index of the two meshes names one of the mesh's vertices.
pub proof fn indices_name_vertices()
    ensures
        forall|i: int| 0 <= i < 24 ==> CIRCLE_INDICES@[i] < CIRCLE_VERTEX_COUNT,
        forall|i: int| 0 <= i < 9 ==> PENTAGON_INDICES@[i] < PENTAGON_VERTEX_COUNT,
{
}

} // verus!
