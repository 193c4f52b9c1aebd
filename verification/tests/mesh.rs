use bigseed::chunk::Chunk;
use bigseed::direction::Direction;
use bigseed::mesh_data::MeshData;
use bigseed::position::Position;
use bigseed::voxel_geometry::{add_quad_triangles, create_vertex_position_face};
use bigseed::voxel_mesh_builder::build_mesh;

#[test]
fn empty_chunk_meshes_empty() {
    let chunk = Chunk::new(4, 4, 4);
    let mesh = build_mesh(&chunk);

    assert_eq!(mesh.vertices.len(), 0);
    assert_eq!(mesh.indices.len(), 0);
}

#[test]
fn zero_sized_chunk_meshes_empty() {
    let chunk = Chunk::new(0, 0, 0);
    let mesh = chunk.build_mesh();

    assert_eq!(mesh.vertices.len(), 0);
    assert_eq!(mesh.indices.len(), 0);
}

#[test]
fn single_voxel_meshes_six_faces() {
    let mut chunk = Chunk::new(1, 1, 1);
    chunk.set_voxel(0, 0, 0, 5).unwrap();

    let mesh = chunk.build_mesh();

    // Every neighbor is out of bound, so all six faces are exposed:
    // 6 faces x 4 vertices and 6 faces x 6 indices.
    assert_eq!(mesh.vertices.len(), 24);
    assert_eq!(mesh.indices.len(), 36);

    for vertex in &mesh.vertices {
        assert_eq!(vertex.color_index, 5);
        // Every corner of the unit cube around the origin sits one
        // half-unit away from it on every axis.
        assert_eq!(vertex.position.x.abs(), 1);
        assert_eq!(vertex.position.y.abs(), 1);
        assert_eq!(vertex.position.z.abs(), 1);
        // The normal is an axis-aligned unit vector.
        let n = &vertex.normal;
        assert_eq!(n.x.abs() + n.y.abs() + n.z.abs(), 1);
    }

    // The first face points North (+Z): all four corners at z = +0.5 in
    // half-units, wound from the (+x, -y) corner.
    let first = &mesh.vertices[0];
    assert_eq!((first.position.x, first.position.y, first.position.z), (1, -1, 1));
    for vertex in &mesh.vertices[0..4] {
        assert_eq!(vertex.position.z, 1);
        assert_eq!((vertex.normal.x, vertex.normal.y, vertex.normal.z), (0, 0, 1));
    }

    // Indices come in fan-triangulated groups of six per quad.
    for face in 0..6 {
        let base = (face * 4) as i32;
        let group = &mesh.indices[face * 6..face * 6 + 6];
        assert_eq!(group, [base, base + 1, base + 2, base, base + 2, base + 3]);
    }
}

#[test]
fn adjacent_solid_voxels_cull_shared_faces() {
    let mut chunk = Chunk::new(2, 1, 1);
    chunk.set_voxel(0, 0, 0, 1).unwrap();
    chunk.set_voxel(1, 0, 0, 2).unwrap();

    let mesh = chunk.build_mesh();

    // The +X face of voxel 0 and the -X face of voxel 1 are buried, so
    // only 10 of the 12 faces are emitted.
    assert_eq!(mesh.vertices.len(), 40);
    assert_eq!(mesh.indices.len(), 60);

    // No emitted face points at the shared boundary: voxel 0 emits no East
    // face (normal +X) and voxel 1 no West face (normal -X).
    for quad in mesh.vertices.chunks(4) {
        let normal = (quad[0].normal.x, quad[0].normal.y, quad[0].normal.z);
        if quad[0].color_index == 1 {
            assert_ne!(normal, (1, 0, 0));
        } else {
            assert_eq!(quad[0].color_index, 2);
            assert_ne!(normal, (-1, 0, 0));
        }
    }
}

#[test]
fn build_mesh_is_deterministic() {
    let mut chunk = Chunk::new(3, 2, 2);
    chunk.set_voxel(0, 0, 0, 1).unwrap();
    chunk.set_voxel(1, 0, 0, 2).unwrap();
    chunk.set_voxel(2, 1, 1, 3).unwrap();

    let first = build_mesh(&chunk);
    let second = build_mesh(&chunk);

    assert_eq!(first, second);
    assert_eq!(first, chunk.build_mesh());
}

#[test]
fn buried_voxel_emits_nothing() {
    // A 3x3x3 cube of solid voxels: the center voxel has solid neighbors
    // on all six sides, so it contributes no face at all.
    let mut chunk = Chunk::new(3, 3, 3);
    for z in 0..3 {
        for y in 0..3 {
            for x in 0..3 {
                chunk.set_voxel(x, y, z, 1).unwrap();
            }
        }
    }

    let mesh = chunk.build_mesh();

    // Only the hull is visible: 6 sides x 9 voxel faces.
    assert_eq!(mesh.vertices.len(), 54 * 4);
    assert_eq!(mesh.indices.len(), 54 * 6);
}

#[test]
fn face_emission_appends_one_quad() {
    let mut mesh = MeshData::new();
    let position = Position::new(2, 3, 4);

    create_vertex_position_face(&mut mesh, &position, 9, Direction::Up);
    assert_eq!(mesh.vertices.len(), 4);
    assert_eq!(mesh.indices.len(), 0);

    // An Up face: all four corners half a unit above the voxel center.
    for vertex in &mesh.vertices {
        assert_eq!(vertex.position.y, 2 * 3 + 1);
        assert_eq!(vertex.color_index, 9);
        assert_eq!((vertex.normal.x, vertex.normal.y, vertex.normal.z), (0, 1, 0));
    }

    add_quad_triangles(&mut mesh);
    assert_eq!(mesh.indices, vec![0, 1, 2, 0, 2, 3]);

    create_vertex_position_face(&mut mesh, &position, 9, Direction::Down);
    add_quad_triangles(&mut mesh);
    assert_eq!(mesh.indices, vec![0, 1, 2, 0, 2, 3, 4, 5, 6, 4, 6, 7]);
}

#[test]
fn direction_order_is_fixed() {
    let directions = Direction::iterator();

    assert_eq!(
        directions,
        vec![
            Direction::North,
            Direction::South,
            Direction::East,
            Direction::West,
            Direction::Up,
            Direction::Down,
        ]
    );
}

#[test]
fn position_steps_one_voxel() {
    let position = Position::new(5, -2, 7);

    let north = position.add_direction(Direction::North);
    assert_eq!((north.x, north.y, north.z), (5, -2, 8));
    let south = position.add_direction(Direction::South);
    assert_eq!((south.x, south.y, south.z), (5, -2, 6));
    let east = position.add_direction(Direction::East);
    assert_eq!((east.x, east.y, east.z), (6, -2, 7));
    let west = position.add_direction(Direction::West);
    assert_eq!((west.x, west.y, west.z), (4, -2, 7));
    let up = position.add_direction(Direction::Up);
    assert_eq!((up.x, up.y, up.z), (5, -1, 7));
    let down = position.add_direction(Direction::Down);
    assert_eq!((down.x, down.y, down.z), (5, -3, 7));

    let unit = Position::from_direction(Direction::West);
    assert_eq!((unit.x, unit.y, unit.z), (-1, 0, 0));
}

#[test]
fn full_slab_emits_only_the_hull() {
    // A fully solid 255x255x1 slab, the largest legal extent on two axes:
    // every voxel shows its North and South face, and only the voxels on
    // the rim show East, West, Up or Down faces.
    let mut chunk = Chunk::new(255, 255, 1);
    for y in 0..255 {
        for x in 0..255 {
            chunk.set_voxel(x, y, 0, 1).unwrap();
        }
    }

    let mesh = chunk.build_mesh();

    let faces = 2 * 255 * 255 + 4 * 255;
    assert_eq!(mesh.vertices.len(), faces * 4);
    assert_eq!(mesh.indices.len(), faces * 6);
}
