use vstd::prelude::*;

use crate::direction::Direction;
use crate::mesh_data::MeshData;
use crate::position::{direction_step, Position};
use crate::vertex::{Vec3i, Vertex};

verus! {

/// Corner `i` (0 to 3) of the face of a unit cube that points in direction
/// `d`, as an offset from the cube's center in half-units.
///
/// The four corners of each face are wound counter-clockwise as seen from
/// outside the cube, starting from the corner given in the mesh builder's
/// fan-triangulation convention, so the two triangles `(0, 1, 2)` and
/// `(0, 2, 3)` both face outward along `d`.
pub open spec fn face_corner_offset(d: Direction, i: int) -> (int, int, int) {
    match d {
        Direction::North => if i == 0 {
            (1, -1, 1)
        } else if i == 1 {
            (1, 1, 1)
        } else if i == 2 {
            (-1, 1, 1)
        } else {
            (-1, -1, 1)
        },
        Direction::South => if i == 0 {
            (-1, -1, -1)
        } else if i == 1 {
            (-1, 1, -1)
        } else if i == 2 {
            (1, 1, -1)
        } else {
            (1, -1, -1)
        },
        Direction::East => if i == 0 {
            (1, -1, -1)
        } else if i == 1 {
            (1, 1, -1)
        } else if i == 2 {
            (1, 1, 1)
        } else {
            (1, -1, 1)
        },
        Direction::West => if i == 0 {
            (-1, -1, 1)
        } else if i == 1 {
            (-1, 1, 1)
        } else if i == 2 {
            (-1, 1, -1)
        } else {
            (-1, -1, -1)
        },
        Direction::Up => if i == 0 {
            (-1, 1, -1)
        } else if i == 1 {
            (-1, 1, 1)
        } else if i == 2 {
            (1, 1, 1)
        } else {
            (1, 1, -1)
        },
        Direction::Down => if i == 0 {
            (-1, -1, 1)
        } else if i == 1 {
            (-1, -1, -1)
        } else if i == 2 {
            (1, -1, -1)
        } else {
            (1, -1, 1)
        },
    }
}

/// Vertex `i` (0 to 3) of the face of the voxel centered on `(x, y, z)` that
/// points in direction `d`: the corner position in half-units, the voxel's
/// material id as the color index, and the face's outward unit normal.
pub open spec fn face_vertex(x: int, y: int, z: int, color_index: u8, d: Direction, i: int) -> Vertex {
    let (ox, oy, oz) = face_corner_offset(d, i);
    let (nx, ny, nz) = direction_step(d);
    Vertex {
        position: Vec3i {
            x: (2 * x + ox) as i64,
            y: (2 * y + oy) as i64,
            z: (2 * z + oz) as i64,
        },
        color_index: color_index,
        normal: Vec3i { x: nx as i64, y: ny as i64, z: nz as i64 },
    }
}

/// The four vertices of one voxel face, in winding order.
pub open spec fn face_vertices(x: int, y: int, z: int, color_index: u8, d: Direction) -> Seq<
    Vertex,
> {
    Seq::new(4, |i: int| face_vertex(x, y, z, color_index, d, i))
}

/// The six triangle indices of the quad whose four vertices start at `base`:
/// the fan `(base, base+1, base+2)` then `(base, base+2, base+3)`.
pub open spec fn quad_indices(base: int) -> Seq<i32> {
    seq![
        base as i32,
        (base + 1) as i32,
        (base + 2) as i32,
        base as i32,
        (base + 2) as i32,
        (base + 3) as i32,
    ]
}

/// A voxel coordinate far enough from the edge of `i64` that its doubled
/// half-unit corner coordinates cannot overflow.
pub open spec fn coordinate_in_range(c: int) -> bool {
    -0x2000_0000_0000_0000 <= c <= 0x2000_0000_0000_0000
}

/// Appends the four vertices of the face of the voxel at `position` that
/// points in `direction`, leaving the index buffer untouched.
pub fn create_vertex_position_face(
    mesh_data: &mut MeshData,
    position: &Position,
    color_index: u8,
    direction: Direction,
)
    requires
        coordinate_in_range(position.x as int),
        coordinate_in_range(position.y as int),
        coordinate_in_range(position.z as int),
    ensures
        final(mesh_data).vertices@ == old(mesh_data).vertices@ + face_vertices(
            position.x as int,
            position.y as int,
            position.z as int,
            color_index,
            direction,
        ),
        final(mesh_data).indices@ == old(mesh_data).indices@,
{
    let px = position.x * 2;
    let py = position.y * 2;
    let pz = position.z * 2;

    let normal_step = Position::from_direction(direction);
    let normal = Vec3i { x: normal_step.x, y: normal_step.y, z: normal_step.z };

    let (v0, v1, v2, v3) = match direction {
        Direction::North => (
            Vertex { position: Vec3i { x: px + 1, y: py - 1, z: pz + 1 }, color_index, normal },
            Vertex { position: Vec3i { x: px + 1, y: py + 1, z: pz + 1 }, color_index, normal },
            Vertex { position: Vec3i { x: px - 1, y: py + 1, z: pz + 1 }, color_index, normal },
            Vertex { position: Vec3i { x: px - 1, y: py - 1, z: pz + 1 }, color_index, normal },
        ),
        Direction::South => (
            Vertex { position: Vec3i { x: px - 1, y: py - 1, z: pz - 1 }, color_index, normal },
            Vertex { position: Vec3i { x: px - 1, y: py + 1, z: pz - 1 }, color_index, normal },
            Vertex { position: Vec3i { x: px + 1, y: py + 1, z: pz - 1 }, color_index, normal },
            Vertex { position: Vec3i { x: px + 1, y: py - 1, z: pz - 1 }, color_index, normal },
        ),
        Direction::East => (
            Vertex { position: Vec3i { x: px + 1, y: py - 1, z: pz - 1 }, color_index, normal },
            Vertex { position: Vec3i { x: px + 1, y: py + 1, z: pz - 1 }, color_index, normal },
            Vertex { position: Vec3i { x: px + 1, y: py + 1, z: pz + 1 }, color_index, normal },
            Vertex { position: Vec3i { x: px + 1, y: py - 1, z: pz + 1 }, color_index, normal },
        ),
        Direction::West => (
            Vertex { position: Vec3i { x: px - 1, y: py - 1, z: pz + 1 }, color_index, normal },
            Vertex { position: Vec3i { x: px - 1, y: py + 1, z: pz + 1 }, color_index, normal },
            Vertex { position: Vec3i { x: px - 1, y: py + 1, z: pz - 1 }, color_index, normal },
            Vertex { position: Vec3i { x: px - 1, y: py - 1, z: pz - 1 }, color_index, normal },
        ),
        Direction::Up => (
            Vertex { position: Vec3i { x: px - 1, y: py + 1, z: pz - 1 }, color_index, normal },
            Vertex { position: Vec3i { x: px - 1, y: py + 1, z: pz + 1 }, color_index, normal },
            Vertex { position: Vec3i { x: px + 1, y: py + 1, z: pz + 1 }, color_index, normal },
            Vertex { position: Vec3i { x: px + 1, y: py + 1, z: pz - 1 }, color_index, normal },
        ),
        Direction::Down => (
            Vertex { position: Vec3i { x: px - 1, y: py - 1, z: pz + 1 }, color_index, normal },
            Vertex { position: Vec3i { x: px - 1, y: py - 1, z: pz - 1 }, color_index, normal },
            Vertex { position: Vec3i { x: px + 1, y: py - 1, z: pz - 1 }, color_index, normal },
            Vertex { position: Vec3i { x: px + 1, y: py - 1, z: pz + 1 }, color_index, normal },
        ),
    };

    mesh_data.vertices.push(v0);
    mesh_data.vertices.push(v1);
    mesh_data.vertices.push(v2);
    mesh_data.vertices.push(v3);

    proof {
        let fvs = face_vertices(
            position.x as int,
            position.y as int,
            position.z as int,
            color_index,
            direction,
        );
        assert(fvs[0] == v0);
        assert(fvs[1] == v1);
        assert(fvs[2] == v2);
        assert(fvs[3] == v3);
        assert(mesh_data.vertices@ =~= old(mesh_data).vertices@ + fvs);
    }
}

/// Appends the six indices of the two triangles covering the quad formed by
/// the last four vertices, leaving the vertex buffer untouched.
pub fn add_quad_triangles(mesh_data: &mut MeshData)
    requires
        4 <= old(mesh_data).vertices@.len() <= 0x7fff_ffff,
    ensures
        final(mesh_data).vertices@ == old(mesh_data).vertices@,
        final(mesh_data).indices@ == old(mesh_data).indices@ + quad_indices(
            old(mesh_data).vertices@.len() - 4,
        ),
{
    let vertices_count = mesh_data.vertices.len() as i32;

    mesh_data.indices.push(vertices_count - 4);
    mesh_data.indices.push(vertices_count - 3);
    mesh_data.indices.push(vertices_count - 2);

    mesh_data.indices.push(vertices_count - 4);
    mesh_data.indices.push(vertices_count - 2);
    mesh_data.indices.push(vertices_count - 1);

    proof {
        assert(mesh_data.indices@ =~= old(mesh_data).indices@ + quad_indices(
            old(mesh_data).vertices@.len() - 4,
        ));
    }
}

} // verus!
