use vstd::prelude::*;

use crate::chunk::Chunk;
use crate::direction::{direction_order, Direction};
use crate::mesh_data::MeshData;
use crate::position::{direction_step, Position};
use crate::vertex::Vertex;
use crate::voxel_geometry::{
    add_quad_triangles, create_vertex_position_face, face_vertices, quad_indices,
};

verus! {

/// One voxel face that the mesh builder emits: the coordinate of the voxel
/// it belongs to, the voxel's material id, and the direction it points in.
pub ghost struct Face {
    pub x: int,
    pub y: int,
    pub z: int,
    pub color_index: u8,
    pub dir: Direction,
}

/// A face of the voxel at `(x, y, z)` is exposed exactly when the voxel
/// touching that face is not solid, which covers both an air neighbor and a
/// neighbor outside the chunk.
pub open spec fn face_exposed(c: Chunk, x: int, y: int, z: int, d: Direction) -> bool {
    let (dx, dy, dz) = direction_step(d);
    !c.spec_solid(x + dx, y + dy, z + dz)
}

/// The exposed faces of the solid voxel at `(x, y, z)` among the first `n`
/// directions of the fixed enumeration order.
pub open spec fn voxel_faces_upto(c: Chunk, x: int, y: int, z: int, n: int) -> Seq<Face>
    decreases n,
{
    if n <= 0 {
        Seq::empty()
    } else {
        voxel_faces_upto(c, x, y, z, n - 1) + if face_exposed(
            c,
            x,
            y,
            z,
            direction_order()[n - 1],
        ) {
            seq![
                Face {
                    x,
                    y,
                    z,
                    color_index: c.spec_voxel(x, y, z),
                    dir: direction_order()[n - 1],
                },
            ]
        } else {
            Seq::empty()
        }
    }
}

/// All faces the mesh builder emits for the voxel at `(x, y, z)`: its
/// exposed faces when it is solid, none when it is air or out of bound.
pub open spec fn voxel_faces(c: Chunk, x: int, y: int, z: int) -> Seq<Face> {
    if c.spec_solid(x, y, z) {
        voxel_faces_upto(c, x, y, z, 6)
    } else {
        Seq::empty()
    }
}

/// The faces of the voxels at height `y` and depth `z` with column index
/// below `x`, in column order.
pub open spec fn row_faces_upto(c: Chunk, y: int, z: int, x: int) -> Seq<Face>
    decreases x,
{
    if x <= 0 {
        Seq::empty()
    } else {
        row_faces_upto(c, y, z, x - 1) + voxel_faces(c, x - 1, y, z)
    }
}

/// The faces of the voxels at depth `z` with height below `y`, in row order.
pub open spec fn layer_faces_upto(c: Chunk, z: int, y: int) -> Seq<Face>
    decreases y,
{
    if y <= 0 {
        Seq::empty()
    } else {
        layer_faces_upto(c, z, y - 1) + row_faces_upto(c, y - 1, z, c.size_x as int)
    }
}

/// The faces of the voxels with depth below `z`, in layer order.
pub open spec fn chunk_faces_upto(c: Chunk, z: int) -> Seq<Face>
    decreases z,
{
    if z <= 0 {
        Seq::empty()
    } else {
        chunk_faces_upto(c, z - 1) + layer_faces_upto(c, z - 1, c.size_y as int)
    }
}

/// Every face the mesh builder emits for `c`, in emission order: voxels are
/// walked with `x` varying fastest, then `y`, then `z`, and each solid
/// voxel's exposed faces follow the fixed direction order.
pub open spec fn chunk_faces(c: Chunk) -> Seq<Face> {
    chunk_faces_upto(c, c.size_z as int)
}

/// The vertex buffer that a sequence of faces produces: four vertices per
/// face, in face order.
pub open spec fn faces_vertices(fs: Seq<Face>) -> Seq<Vertex>
    decreases fs.len(),
{
    if fs.len() == 0 {
        Seq::empty()
    } else {
        let f = fs.last();
        faces_vertices(fs.drop_last()) + face_vertices(f.x, f.y, f.z, f.color_index, f.dir)
    }
}

/// The index buffer entries of the faces numbered `from` (inclusive) to
/// `to` (exclusive): face number `j` is a quad over vertices `4j` to
/// `4j + 3`.
pub open spec fn faces_indices(from: int, to: int) -> Seq<i32>
    decreases to - from,
{
    if to <= from {
        Seq::empty()
    } else {
        faces_indices(from, to - 1) + quad_indices(4 * (to - 1))
    }
}

proof fn lemma_faces_vertices_concat(a: Seq<Face>, b: Seq<Face>)
    ensures
        faces_vertices(a + b) == faces_vertices(a) + faces_vertices(b),
    decreases b.len(),
{
    if b.len() == 0 {
        assert(a + b =~= a);
        assert(faces_vertices(b) =~= Seq::empty());
        assert(faces_vertices(a) + faces_vertices(b) =~= faces_vertices(a));
    } else {
        lemma_faces_vertices_concat(a, b.drop_last());
        assert((a + b).drop_last() =~= a + b.drop_last());
        assert((a + b).last() == b.last());
        let f = b.last();
        assert(faces_vertices(a) + faces_vertices(b.drop_last()) + face_vertices(
            f.x,
            f.y,
            f.z,
            f.color_index,
            f.dir,
        ) =~= faces_vertices(a) + faces_vertices(b));
    }
}

proof fn lemma_faces_vertices_len(fs: Seq<Face>)
    ensures
        faces_vertices(fs).len() == 4 * fs.len(),
    decreases fs.len(),
{
    if fs.len() != 0 {
        lemma_faces_vertices_len(fs.drop_last());
    }
}

proof fn lemma_faces_indices_split(from: int, mid: int, to: int)
    requires
        from <= mid <= to,
    ensures
        faces_indices(from, to) == faces_indices(from, mid) + faces_indices(mid, to),
    decreases to - mid,
{
    if to <= mid {
        assert(faces_indices(mid, to) =~= Seq::empty());
        assert(faces_indices(from, mid) + faces_indices(mid, to) =~= faces_indices(from, mid));
    } else {
        lemma_faces_indices_split(from, mid, to - 1);
        assert(faces_indices(from, mid) + (faces_indices(mid, to - 1) + quad_indices(
            4 * (to - 1),
        )) =~= faces_indices(from, mid) + faces_indices(mid, to - 1) + quad_indices(4 * (to - 1)));
    }
}

proof fn lemma_voxel_faces_upto_len(c: Chunk, x: int, y: int, z: int, n: int)
    requires
        n >= 0,
    ensures
        voxel_faces_upto(c, x, y, z, n).len() <= n,
    decreases n,
{
    if n > 0 {
        lemma_voxel_faces_upto_len(c, x, y, z, n - 1);
    }
}

proof fn lemma_voxel_faces_len(c: Chunk, x: int, y: int, z: int)
    ensures
        voxel_faces(c, x, y, z).len() <= 6,
{
    lemma_voxel_faces_upto_len(c, x, y, z, 6);
}

proof fn lemma_row_faces_len(c: Chunk, y: int, z: int, x: int)
    requires
        x >= 0,
    ensures
        row_faces_upto(c, y, z, x).len() <= 6 * x,
    decreases x,
{
    if x > 0 {
        lemma_row_faces_len(c, y, z, x - 1);
        lemma_voxel_faces_len(c, x - 1, y, z);
    }
}

proof fn lemma_layer_faces_len(c: Chunk, z: int, y: int)
    requires
        y >= 0,
    ensures
        layer_faces_upto(c, z, y).len() <= 6 * y * (c.size_x as int),
    decreases y,
{
    if y > 0 {
        lemma_layer_faces_len(c, z, y - 1);
        lemma_row_faces_len(c, y - 1, z, c.size_x as int);
        assert(6 * (y - 1) * (c.size_x as int) + 6 * (c.size_x as int) == 6 * y * (
        c.size_x as int)) by (nonlinear_arith);
    }
}

proof fn lemma_chunk_faces_upto_len(c: Chunk, z: int)
    requires
        z >= 0,
    ensures
        chunk_faces_upto(c, z).len() <= 6 * z * (c.size_x as int) * (c.size_y as int),
    decreases z,
{
    if z > 0 {
        lemma_chunk_faces_upto_len(c, z - 1);
        lemma_layer_faces_len(c, z - 1, c.size_y as int);
        assert(6 * (z - 1) * (c.size_x as int) * (c.size_y as int) + 6 * (c.size_y as int) * (
        c.size_x as int) == 6 * z * (c.size_x as int) * (c.size_y as int)) by (nonlinear_arith);
    }
}

/// The faces of all voxels that precede `(x, y, z)` in the mesh builder's
/// walk over chunk `c`: the full layers below `z`, the full rows of layer
/// `z` below `y`, and the columns of the current row below `x`.
pub open spec fn prefix_faces(c: Chunk, z: int, y: int, x: int) -> Seq<Face> {
    chunk_faces_upto(c, z) + layer_faces_upto(c, z, y) + row_faces_upto(c, y, z, x)
}

/// The walk never emits more than six faces per voxel, and a chunk with
/// byte-sized dimensions holds at most 16581375 voxels, so any prefix of the
/// emitted faces stays well below the index range of `i32`.
proof fn lemma_prefix_faces_len(c: Chunk, z: int, y: int, x: int)
    requires
        0 <= x <= c.size_x as int,
        0 <= y <= c.size_y as int,
        0 <= z <= c.size_z as int,
    ensures
        prefix_faces(c, z, y, x).len() <= 99879930,
{
    lemma_chunk_faces_upto_len(c, z);
    lemma_layer_faces_len(c, z, y);
    lemma_row_faces_len(c, y, z, x);
    assert(6 * z * (c.size_x as int) * (c.size_y as int) <= 99488250) by (nonlinear_arith)
        requires
            0 <= z <= 255,
            0 <= c.size_x as int <= 255,
            0 <= c.size_y as int <= 255,
    ;
    assert(6 * y * (c.size_x as int) <= 390150) by (nonlinear_arith)
        requires
            0 <= y <= 255,
            0 <= c.size_x as int <= 255,
    ;
}

/// Appends the exposed faces of the solid voxel at `(x, y, z)`: for each of
/// the six directions in order, if the touching voxel is missing or air, the
/// face's four vertices and the two triangles covering them.
fn voxel_data(chunk: &Chunk, x: i64, y: i64, z: i64, mesh_data: &mut MeshData)
    requires
        chunk.wf(),
        chunk.spec_solid(x as int, y as int, z as int),
        old(mesh_data).vertices@.len() % 4 == 0,
        old(mesh_data).vertices@.len() + 24 <= 0x7fff_ffff,
    ensures
        final(mesh_data).vertices@ == old(mesh_data).vertices@ + faces_vertices(
            voxel_faces(*chunk, x as int, y as int, z as int),
        ),
        final(mesh_data).indices@ == old(mesh_data).indices@ + faces_indices(
            old(mesh_data).vertices@.len() as int / 4,
            old(mesh_data).vertices@.len() as int / 4 + voxel_faces(
                *chunk,
                x as int,
                y as int,
                z as int,
            ).len(),
        ),
{
    let position: Position = Position::new(x, y, z);
    let dirs = Direction::iterator();
    let ghost first_face = old(mesh_data).vertices@.len() as int / 4;

    let mut i: usize = 0;
    while i < 6
        invariant
            chunk.wf(),
            chunk.spec_solid(x as int, y as int, z as int),
            0 <= x < 256 && 0 <= y < 256 && 0 <= z < 256,
            position == (Position { x, y, z }),
            dirs@ == direction_order(),
            i <= 6,
            voxel_faces_upto(*chunk, x as int, y as int, z as int, i as int).len() <= i,
            old(mesh_data).vertices@.len() % 4 == 0,
            old(mesh_data).vertices@.len() + 24 <= 0x7fff_ffff,
            first_face == old(mesh_data).vertices@.len() as int / 4,
            mesh_data.vertices@ == old(mesh_data).vertices@ + faces_vertices(
                voxel_faces_upto(*chunk, x as int, y as int, z as int, i as int),
            ),
            mesh_data.indices@ == old(mesh_data).indices@ + faces_indices(
                first_face,
                first_face + voxel_faces_upto(*chunk, x as int, y as int, z as int, i as int).len(),
            ),
        decreases 6 - i,
    {
        let ghost faces_before = voxel_faces_upto(*chunk, x as int, y as int, z as int, i as int);
        let direction = dirs[i];
        let touching_pos: Position = position.add_direction(direction);

        if chunk.is_position_out_of_bound(&touching_pos) || chunk.is_position_air(&touching_pos) {
            let color_index = match chunk.get_voxel(x, y, z) {
                Ok(voxel) => voxel,
                Err(_) => 0,
            };
            proof {
                lemma_faces_vertices_len(faces_before);
            }
            create_vertex_position_face(mesh_data, &position, color_index, direction);
            add_quad_triangles(mesh_data);
            proof {
                let face = Face {
                    x: x as int,
                    y: y as int,
                    z: z as int,
                    color_index: chunk.spec_voxel(x as int, y as int, z as int),
                    dir: direction,
                };
                let faces_after = voxel_faces_upto(
                    *chunk,
                    x as int,
                    y as int,
                    z as int,
                    i as int + 1,
                );
                assert(face_exposed(*chunk, x as int, y as int, z as int, direction));
                assert(faces_after == faces_before + seq![face]);
                lemma_faces_vertices_concat(faces_before, seq![face]);
                assert(seq![face].drop_last() =~= Seq::<Face>::empty());
                assert(seq![face].last() == face);
                assert(faces_vertices(Seq::<Face>::empty()) =~= Seq::<Vertex>::empty());
                assert(faces_vertices(seq![face]) =~= face_vertices(
                    face.x,
                    face.y,
                    face.z,
                    face.color_index,
                    face.dir,
                ));
                assert(mesh_data.vertices@ =~= old(mesh_data).vertices@ + faces_vertices(
                    faces_after,
                ));
                assert(4 * (first_face + faces_before.len()) == old(mesh_data).vertices@.len()
                    + 4 * faces_before.len());
                assert(mesh_data.indices@ =~= old(mesh_data).indices@ + faces_indices(
                    first_face,
                    first_face + faces_after.len(),
                ));
            }
        } else {
            proof {
                let faces_after = voxel_faces_upto(
                    *chunk,
                    x as int,
                    y as int,
                    z as int,
                    i as int + 1,
                );
                assert(!face_exposed(*chunk, x as int, y as int, z as int, direction));
                assert(faces_after =~= faces_before);
            }
        }
        i = i + 1;
    }
}

/// Walks every voxel of `chunk` with `x` varying fastest, then `y`, then
/// `z`, and emits a quad for every exposed face of every solid voxel.
///
/// The result is a pure function of the chunk's contents: its vertex buffer
/// is exactly the vertices of `chunk_faces(chunk)` and its index buffer the
/// matching fan triangulation.
pub fn build_mesh(chunk: &Chunk) -> (mesh_data: MeshData)
    requires
        chunk.wf(),
    ensures
        mesh_data.vertices@ == faces_vertices(chunk_faces(*chunk)),
        mesh_data.indices@ == faces_indices(0, chunk_faces(*chunk).len() as int),
{
    let mut mesh_data = MeshData::new();

    let mut z: u8 = 0;
    while z < chunk.size_z
        invariant
            chunk.wf(),
            z <= chunk.size_z,
            mesh_data.vertices@ == faces_vertices(chunk_faces_upto(*chunk, z as int)),
            mesh_data.indices@ == faces_indices(0, chunk_faces_upto(*chunk, z as int).len() as int),
        decreases chunk.size_z - z,
    {
        let mut y: u8 = 0;
        while y < chunk.size_y
            invariant
                chunk.wf(),
                z < chunk.size_z,
                y <= chunk.size_y,
                mesh_data.vertices@ == faces_vertices(
                    chunk_faces_upto(*chunk, z as int) + layer_faces_upto(*chunk, z as int, y as int),
                ),
                mesh_data.indices@ == faces_indices(
                    0,
                    (chunk_faces_upto(*chunk, z as int) + layer_faces_upto(
                        *chunk,
                        z as int,
                        y as int,
                    )).len() as int,
                ),
            decreases chunk.size_y - y,
        {
            let mut x: u8 = 0;
            while x < chunk.size_x
                invariant
                    chunk.wf(),
                    z < chunk.size_z,
                    y < chunk.size_y,
                    x <= chunk.size_x,
                    mesh_data.vertices@ == faces_vertices(
                        prefix_faces(*chunk, z as int, y as int, x as int),
                    ),
                    mesh_data.indices@ == faces_indices(
                        0,
                        prefix_faces(*chunk, z as int, y as int, x as int).len() as int,
                    ),
                decreases chunk.size_x - x,
            {
                let ghost before = prefix_faces(*chunk, z as int, y as int, x as int);
                let ghost vf = voxel_faces(*chunk, x as int, y as int, z as int);
                proof {
                    lemma_faces_vertices_len(before);
                    lemma_prefix_faces_len(*chunk, z as int, y as int, x as int);
                }
                if chunk.is_solid(x as i64, y as i64, z as i64) {
                    voxel_data(chunk, x as i64, y as i64, z as i64, &mut mesh_data);
                    proof {
                        lemma_faces_vertices_concat(before, vf);
                        lemma_faces_indices_split(0, before.len() as int, before.len() as int + vf.len() as int);
                        assert(prefix_faces(*chunk, z as int, y as int, x as int + 1) =~= before
                            + vf);
                    }
                } else {
                    proof {
                        assert(vf =~= Seq::<Face>::empty());
                        assert(prefix_faces(*chunk, z as int, y as int, x as int + 1) =~= before);
                    }
                }
                x = x + 1;
            }
            proof {
                assert(prefix_faces(*chunk, z as int, y as int, chunk.size_x as int)
                    =~= chunk_faces_upto(*chunk, z as int) + layer_faces_upto(
                    *chunk,
                    z as int,
                    y as int + 1,
                ));
            }
            y = y + 1;
        }
        proof {
            assert(chunk_faces_upto(*chunk, z as int) + layer_faces_upto(
                *chunk,
                z as int,
                chunk.size_y as int,
            ) =~= chunk_faces_upto(*chunk, z as int + 1));
        }
        z = z + 1;
    }

    mesh_data
}

proof fn lemma_no_solid_row_empty(c: Chunk, y: int, z: int, x: int)
    requires
        x >= 0,
        forall|x0: int, y0: int, z0: int| !c.spec_solid(x0, y0, z0),
    ensures
        row_faces_upto(c, y, z, x) == Seq::<Face>::empty(),
    decreases x,
{
    if x > 0 {
        lemma_no_solid_row_empty(c, y, z, x - 1);
        assert(voxel_faces(c, x - 1, y, z) =~= Seq::<Face>::empty());
        assert(row_faces_upto(c, y, z, x) =~= Seq::<Face>::empty());
    }
}

proof fn lemma_no_solid_layer_empty(c: Chunk, z: int, y: int)
    requires
        y >= 0,
        forall|x0: int, y0: int, z0: int| !c.spec_solid(x0, y0, z0),
    ensures
        layer_faces_upto(c, z, y) == Seq::<Face>::empty(),
    decreases y,
{
    if y > 0 {
        lemma_no_solid_layer_empty(c, z, y - 1);
        lemma_no_solid_row_empty(c, y - 1, z, c.size_x as int);
        assert(layer_faces_upto(c, z, y) =~= Seq::<Face>::empty());
    }
}

proof fn lemma_no_solid_chunk_empty(c: Chunk, z: int)
    requires
        z >= 0,
        forall|x0: int, y0: int, z0: int| !c.spec_solid(x0, y0, z0),
    ensures
        chunk_faces_upto(c, z) == Seq::<Face>::empty(),
    decreases z,
{
    if z > 0 {
        lemma_no_solid_chunk_empty(c, z - 1);
        lemma_no_solid_layer_empty(c, z - 1, c.size_y as int);
        assert(chunk_faces_upto(c, z) =~= Seq::<Face>::empty());
    }
}

/// A chunk whose every voxel is air, such as a freshly constructed one,
/// meshes to nothing: it emits no faces, so `build_mesh` returns an empty
/// vertex buffer and an empty index buffer.
pub proof fn lemma_all_air_chunk_meshes_empty(c: Chunk)
    requires
        c.wf(),
        forall|i: int| 0 <= i < c.voxels@.len() ==> c.voxels@[i] == 0u8,
    ensures
        chunk_faces(c) == Seq::<Face>::empty(),
        faces_vertices(chunk_faces(c)) == Seq::<Vertex>::empty(),
        faces_indices(0, chunk_faces(c).len() as int) == Seq::<i32>::empty(),
{
    assert forall|x0: int, y0: int, z0: int| !c.spec_solid(x0, y0, z0) by {
        if c.spec_in_bound(x0, y0, z0) {
            c.lemma_linear_index_in_range(x0, y0, z0);
        }
    }
    lemma_no_solid_chunk_empty(c, c.size_z as int);
}

/// A face the mesh builder may emit: it belongs to a solid voxel, it is
/// exposed, and it carries that voxel's material id.
pub open spec fn face_ok(c: Chunk, f: Face) -> bool {
    c.spec_solid(f.x, f.y, f.z) && face_exposed(c, f.x, f.y, f.z, f.dir) && f.color_index
        == c.spec_voxel(f.x, f.y, f.z)
}

proof fn lemma_voxel_faces_upto_ok(c: Chunk, x: int, y: int, z: int, n: int)
    requires
        c.spec_solid(x, y, z),
        n <= 6,
    ensures
        forall|j: int|
            0 <= j < voxel_faces_upto(c, x, y, z, n).len() ==> face_ok(
                c,
                #[trigger] voxel_faces_upto(c, x, y, z, n)[j],
            ),
    decreases n,
{
    if n > 0 {
        let prev = voxel_faces_upto(c, x, y, z, n - 1);
        let cur = voxel_faces_upto(c, x, y, z, n);
        lemma_voxel_faces_upto_ok(c, x, y, z, n - 1);
        assert forall|j: int| 0 <= j < cur.len() implies face_ok(c, cur[j]) by {
            if j < prev.len() {
                assert(cur[j] == prev[j]);
            } else {
                assert(face_exposed(c, x, y, z, direction_order()[n - 1]));
                assert(cur[j] == (Face {
                    x,
                    y,
                    z,
                    color_index: c.spec_voxel(x, y, z),
                    dir: direction_order()[n - 1],
                }));
            }
        }
    }
}

proof fn lemma_row_faces_ok(c: Chunk, y: int, z: int, x: int)
    ensures
        forall|j: int|
            0 <= j < row_faces_upto(c, y, z, x).len() ==> face_ok(
                c,
                #[trigger] row_faces_upto(c, y, z, x)[j],
            ),
    decreases x,
{
    if x > 0 {
        let prev = row_faces_upto(c, y, z, x - 1);
        let tail = voxel_faces(c, x - 1, y, z);
        let cur = row_faces_upto(c, y, z, x);
        lemma_row_faces_ok(c, y, z, x - 1);
        if c.spec_solid(x - 1, y, z) {
            lemma_voxel_faces_upto_ok(c, x - 1, y, z, 6);
        }
        assert forall|j: int| 0 <= j < cur.len() implies face_ok(c, cur[j]) by {
            if j < prev.len() {
                assert(cur[j] == prev[j]);
            } else {
                assert(cur[j] == tail[j - prev.len()]);
            }
        }
    }
}

proof fn lemma_layer_faces_ok(c: Chunk, z: int, y: int)
    ensures
        forall|j: int|
            0 <= j < layer_faces_upto(c, z, y).len() ==> face_ok(
                c,
                #[trigger] layer_faces_upto(c, z, y)[j],
            ),
    decreases y,
{
    if y > 0 {
        let prev = layer_faces_upto(c, z, y - 1);
        let tail = row_faces_upto(c, y - 1, z, c.size_x as int);
        let cur = layer_faces_upto(c, z, y);
        lemma_layer_faces_ok(c, z, y - 1);
        lemma_row_faces_ok(c, y - 1, z, c.size_x as int);
        assert forall|j: int| 0 <= j < cur.len() implies face_ok(c, cur[j]) by {
            if j < prev.len() {
                assert(cur[j] == prev[j]);
            } else {
                assert(cur[j] == tail[j - prev.len()]);
            }
        }
    }
}

proof fn lemma_chunk_faces_upto_ok(c: Chunk, z: int)
    ensures
        forall|j: int|
            0 <= j < chunk_faces_upto(c, z).len() ==> face_ok(
                c,
                #[trigger] chunk_faces_upto(c, z)[j],
            ),
    decreases z,
{
    if z > 0 {
        let prev = chunk_faces_upto(c, z - 1);
        let tail = layer_faces_upto(c, z - 1, c.size_y as int);
        let cur = chunk_faces_upto(c, z);
        lemma_chunk_faces_upto_ok(c, z - 1);
        lemma_layer_faces_ok(c, z - 1, c.size_y as int);
        assert forall|j: int| 0 <= j < cur.len() implies face_ok(c, cur[j]) by {
            if j < prev.len() {
                assert(cur[j] == prev[j]);
            } else {
                assert(cur[j] == tail[j - prev.len()]);
            }
        }
    }
}

/// Face culling, one direction: every face the mesh builder emits belongs
/// to a solid voxel, carries that voxel's material id, and points at a
/// touching voxel that is missing or air. In particular, the boundary
/// between two adjacent solid voxels never yields a face.
pub proof fn lemma_emitted_faces_are_exposed(c: Chunk)
    ensures
        forall|j: int|
            0 <= j < chunk_faces(c).len() ==> face_ok(c, #[trigger] chunk_faces(c)[j]),
{
    lemma_chunk_faces_upto_ok(c, c.size_z as int);
}

proof fn lemma_voxel_faces_upto_grow(c: Chunk, x: int, y: int, z: int, n: int, m: int, f: Face)
    requires
        0 <= n <= m,
        voxel_faces_upto(c, x, y, z, n).contains(f),
    ensures
        voxel_faces_upto(c, x, y, z, m).contains(f),
    decreases m - n,
{
    if n < m {
        let shorter = voxel_faces_upto(c, x, y, z, m - 1);
        lemma_voxel_faces_upto_grow(c, x, y, z, n, m - 1, f);
        let j = choose|j: int| 0 <= j < shorter.len() && shorter[j] == f;
        assert(voxel_faces_upto(c, x, y, z, m)[j] == f);
    }
}

proof fn lemma_row_faces_grow(c: Chunk, y: int, z: int, x: int, xm: int, f: Face)
    requires
        0 <= x <= xm,
        row_faces_upto(c, y, z, x).contains(f),
    ensures
        row_faces_upto(c, y, z, xm).contains(f),
    decreases xm - x,
{
    if x < xm {
        let shorter = row_faces_upto(c, y, z, xm - 1);
        lemma_row_faces_grow(c, y, z, x, xm - 1, f);
        let j = choose|j: int| 0 <= j < shorter.len() && shorter[j] == f;
        assert(row_faces_upto(c, y, z, xm)[j] == f);
    }
}

proof fn lemma_layer_faces_grow(c: Chunk, z: int, y: int, ym: int, f: Face)
    requires
        0 <= y <= ym,
        layer_faces_upto(c, z, y).contains(f),
    ensures
        layer_faces_upto(c, z, ym).contains(f),
    decreases ym - y,
{
    if y < ym {
        let shorter = layer_faces_upto(c, z, ym - 1);
        lemma_layer_faces_grow(c, z, y, ym - 1, f);
        let j = choose|j: int| 0 <= j < shorter.len() && shorter[j] == f;
        assert(layer_faces_upto(c, z, ym)[j] == f);
    }
}

proof fn lemma_chunk_faces_upto_grow(c: Chunk, z: int, zm: int, f: Face)
    requires
        0 <= z <= zm,
        chunk_faces_upto(c, z).contains(f),
    ensures
        chunk_faces_upto(c, zm).contains(f),
    decreases zm - z,
{
    if z < zm {
        let shorter = chunk_faces_upto(c, zm - 1);
        lemma_chunk_faces_upto_grow(c, z, zm - 1, f);
        let j = choose|j: int| 0 <= j < shorter.len() && shorter[j] == f;
        assert(chunk_faces_upto(c, zm)[j] == f);
    }
}

/// Face culling, the other direction: every exposed face of every solid
/// voxel is emitted. Together with `lemma_emitted_faces_are_exposed`, the
/// emitted faces are exactly the exposed faces of the solid voxels.
pub proof fn lemma_exposed_faces_are_emitted(c: Chunk, x: int, y: int, z: int, n: int)
    requires
        c.spec_solid(x, y, z),
        0 <= n < 6,
        face_exposed(c, x, y, z, direction_order()[n]),
    ensures
        chunk_faces(c).contains(
            Face {
                x,
                y,
                z,
                color_index: c.spec_voxel(x, y, z),
                dir: direction_order()[n],
            },
        ),
{
    let f = Face { x, y, z, color_index: c.spec_voxel(x, y, z), dir: direction_order()[n] };

    let after_dir = voxel_faces_upto(c, x, y, z, n + 1);
    assert(after_dir.last() == f);
    assert(after_dir.contains(f));
    lemma_voxel_faces_upto_grow(c, x, y, z, n + 1, 6, f);

    let row = row_faces_upto(c, y, z, x + 1);
    let shorter_row = row_faces_upto(c, y, z, x);
    let j = choose|j: int|
        0 <= j < voxel_faces(c, x, y, z).len() && voxel_faces(c, x, y, z)[j] == f;
    assert(row[shorter_row.len() + j] == f);
    assert(row.contains(f));
    lemma_row_faces_grow(c, y, z, x + 1, c.size_x as int, f);

    let layer = layer_faces_upto(c, z, y + 1);
    let shorter_layer = layer_faces_upto(c, z, y);
    let full_row = row_faces_upto(c, y, z, c.size_x as int);
    let k = choose|k: int| 0 <= k < full_row.len() && full_row[k] == f;
    assert(layer[shorter_layer.len() + k] == f);
    assert(layer.contains(f));
    lemma_layer_faces_grow(c, z, y + 1, c.size_y as int, f);

    let upto_z = chunk_faces_upto(c, z + 1);
    let shorter_z = chunk_faces_upto(c, z);
    let full_layer = layer_faces_upto(c, z, c.size_y as int);
    let l = choose|l: int| 0 <= l < full_layer.len() && full_layer[l] == f;
    assert(upto_z[shorter_z.len() + l] == f);
    assert(upto_z.contains(f));
    lemma_chunk_faces_upto_grow(c, z + 1, c.size_z as int, f);
}

/// Meshing is deterministic: two meshes built from one unchanged chunk are
/// identical, buffer for buffer.
pub proof fn lemma_build_mesh_deterministic(c: Chunk, m1: MeshData, m2: MeshData)
    requires
        m1.vertices@ == faces_vertices(chunk_faces(c)),
        m1.indices@ == faces_indices(0, chunk_faces(c).len() as int),
        m2.vertices@ == faces_vertices(chunk_faces(c)),
        m2.indices@ == faces_indices(0, chunk_faces(c).len() as int),
    ensures
        m1.vertices@ == m2.vertices@,
        m1.indices@ == m2.indices@,
{
}

impl Chunk {
    /// Builds the render mesh for this chunk's current contents.
    pub fn build_mesh(&self) -> (mesh_data: MeshData)
        requires
            self.wf(),
        ensures
            mesh_data.vertices@ == faces_vertices(chunk_faces(*self)),
            mesh_data.indices@ == faces_indices(0, chunk_faces(*self).len() as int),
    {
        build_mesh(self)
    }
}

} // verus!
