use vstd::prelude::*;

verus! {

/// A 3-component integer vector.
#[derive(Copy, Clone, Debug, PartialEq, Eq, Structural)]
pub struct Vec3i {
    pub x: i64,
    pub y: i64,
    pub z: i64,
}

/// One mesh vertex.
///
/// Every corner of a voxel's unit cube sits half a unit away from the voxel
/// center on each axis, so vertex positions are stored in half-units: the
/// voxel centered on `(x, y, z)` has its corners at `(2x +/- 1, 2y +/- 1,
/// 2z +/- 1)`. This keeps every coordinate an exact integer; a renderer
/// scales positions by one half when uploading them.
///
/// The normal is the outward unit vector of the face the vertex belongs to,
/// in whole units, so exactly one component is `1` or `-1`.
#[derive(Copy, Clone, Debug, PartialEq, Eq, Structural)]
pub struct Vertex {
    pub position: Vec3i,
    pub color_index: u8,
    pub normal: Vec3i,
}

impl Default for Vertex {
    /// The all-zero vertex.
    fn default() -> (r: Self)
        ensures
            r == (Vertex {
                position: Vec3i { x: 0, y: 0, z: 0 },
                color_index: 0,
                normal: Vec3i { x: 0, y: 0, z: 0 },
            }),
    {
        Vertex {
            position: Vec3i { x: 0, y: 0, z: 0 },
            color_index: 0,
            normal: Vec3i { x: 0, y: 0, z: 0 },
        }
    }
}

} // verus!
