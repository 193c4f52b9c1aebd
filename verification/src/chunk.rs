use vstd::prelude::*;

use crate::position::Position;

verus! {

/// A voxel value of `0` means air; any other value is a solid voxel carrying
/// that value as its material identifier.
pub fn is_solid(voxel: u8) -> (r: bool)
    ensures
        r == (voxel != 0),
{
    voxel != 0
}

/// The error returned when a voxel is read or written outside the bounds of
/// its chunk.
#[derive(Debug, Clone, Copy, PartialEq, Eq, Structural)]
pub struct ChunkOutOfBoundError;

/// A dense, fixed-size 3D grid of voxel material identifiers.
///
/// The grid is stored flat: coordinate `(x, y, z)` lives at linear index
/// `z * size_x * size_y + y * size_x + x`, so `x` varies fastest, then `y`,
/// then `z`. The storage length always equals `size_x * size_y * size_z`.
#[derive(Debug, Clone)]
pub struct Chunk {
    pub size_x: u8,
    pub size_y: u8,
    pub size_z: u8,
    pub voxels: Vec<u8>,
}

impl Chunk {
    /// The number of voxels the chunk holds.
    pub open spec fn volume(self) -> int {
        (self.size_x as int) * (self.size_y as int) * (self.size_z as int)
    }

    /// Well-formedness: the flat storage has exactly one entry per coordinate.
    pub open spec fn wf(self) -> bool {
        self.voxels@.len() == self.volume()
    }

    pub open spec fn spec_in_bound(self, x: int, y: int, z: int) -> bool {
        0 <= x < self.size_x as int && 0 <= y < self.size_y as int && 0 <= z < self.size_z as int
    }

    /// The linear index of coordinate `(x, y, z)` in the flat storage.
    pub open spec fn linear_index(self, x: int, y: int, z: int) -> int {
        z * (self.size_x as int * self.size_y as int) + y * (self.size_x as int) + x
    }

    /// The voxel value stored at an in-bound coordinate.
    pub open spec fn spec_voxel(self, x: int, y: int, z: int) -> u8 {
        self.voxels@[self.linear_index(x, y, z)]
    }

    /// A coordinate holds a solid voxel when it is in bound and its value is
    /// not air. Out-of-bound coordinates are never solid.
    pub open spec fn spec_solid(self, x: int, y: int, z: int) -> bool {
        self.spec_in_bound(x, y, z) && self.spec_voxel(x, y, z) != 0
    }

    /// An in-bound coordinate's linear index lies within the flat storage.
    pub proof fn lemma_linear_index_in_range(self, x: int, y: int, z: int)
        requires
            self.spec_in_bound(x, y, z),
        ensures
            0 <= self.linear_index(x, y, z) < self.volume(),
    {
        lemma_flat_index_in_range(
            self.size_x as int,
            self.size_y as int,
            self.size_z as int,
            x,
            y,
            z,
        );
    }

    /// Distinct in-bound coordinates map to distinct linear indices.
    pub proof fn lemma_linear_index_injective(
        self,
        x1: int,
        y1: int,
        z1: int,
        x2: int,
        y2: int,
        z2: int,
    )
        requires
            self.spec_in_bound(x1, y1, z1),
            self.spec_in_bound(x2, y2, z2),
            self.linear_index(x1, y1, z1) == self.linear_index(x2, y2, z2),
        ensures
            x1 == x2 && y1 == y2 && z1 == z2,
    {
        lemma_flat_index_injective(
            self.size_x as int,
            self.size_y as int,
            self.size_z as int,
            x1,
            y1,
            z1,
            x2,
            y2,
            z2,
        );
    }

    /// Creates a chunk of the given dimensions with every voxel set to air.
    ///
    /// Dimensions of zero are legal and yield an empty chunk.
    pub fn new(size_x: u8, size_y: u8, size_z: u8) -> (r: Chunk)
        ensures
            r.wf(),
            r.size_x == size_x,
            r.size_y == size_y,
            r.size_z == size_z,
            forall|i: int| 0 <= i < r.voxels@.len() ==> r.voxels@[i] == 0u8,
    {
        proof {
            lemma_volume_bound(size_x as int, size_y as int, size_z as int);
        }
        let size: usize = size_x as usize * size_y as usize * size_z as usize;
        let mut voxels: Vec<u8> = Vec::new();
        let mut i: usize = 0;
        while i < size
            invariant
                i <= size,
                voxels@.len() == i,
                forall|j: int| 0 <= j < i ==> voxels@[j] == 0u8,
            decreases size - i,
        {
            voxels.push(0);
            i = i + 1;
        }

        Chunk { size_x, size_y, size_z, voxels }
    }

    /// True iff all three signed coordinates lie within `[0, size)` on their
    /// axis. Negative coordinates are out of bound.
    pub fn is_in_bound(&self, x: i64, y: i64, z: i64) -> (r: bool)
        ensures
            r == self.spec_in_bound(x as int, y as int, z as int),
    {
        x >= 0 && y >= 0 && z >= 0 && x < self.size_x as i64 && y < self.size_y as i64
            && z < self.size_z as i64
    }

    pub fn is_out_of_bound(&self, x: i64, y: i64, z: i64) -> (r: bool)
        ensures
            r == !self.spec_in_bound(x as int, y as int, z as int),
    {
        !self.is_in_bound(x, y, z)
    }

    pub fn is_position_in_bound(&self, position: &Position) -> (r: bool)
        ensures
            r == self.spec_in_bound(position.x as int, position.y as int, position.z as int),
    {
        self.is_in_bound(position.x, position.y, position.z)
    }

    pub fn is_position_out_of_bound(&self, position: &Position) -> (r: bool)
        ensures
            r == !self.spec_in_bound(position.x as int, position.y as int, position.z as int),
    {
        self.is_out_of_bound(position.x, position.y, position.z)
    }

    /// Overwrites the voxel at `(x, y, z)`, or reports `ChunkOutOfBoundError`
    /// and leaves the chunk untouched when the coordinate is out of bound.
    pub fn set_voxel(&mut self, x: i64, y: i64, z: i64, i: u8) -> (r: Result<
        (),
        ChunkOutOfBoundError,
    >)
        requires
            old(self).wf(),
        ensures
            final(self).wf(),
            final(self).size_x == old(self).size_x,
            final(self).size_y == old(self).size_y,
            final(self).size_z == old(self).size_z,
            r is Ok <==> old(self).spec_in_bound(x as int, y as int, z as int),
            old(self).spec_in_bound(x as int, y as int, z as int) ==> final(self).voxels@
                == old(self).voxels@.update(old(self).linear_index(x as int, y as int, z as int), i),
            !old(self).spec_in_bound(x as int, y as int, z as int) ==> *final(self) == *old(self)
                && r == Err::<(), ChunkOutOfBoundError>(ChunkOutOfBoundError),
    {
        if self.is_out_of_bound(x, y, z) {
            return Err(ChunkOutOfBoundError);
        }

        proof {
            lemma_flat_index_arith(
                self.size_x as int,
                self.size_y as int,
                self.size_z as int,
                x as int,
                y as int,
                z as int,
            );
        }
        let index = (z * self.size_x as i64 * self.size_y as i64) + (y * self.size_x as i64) + x;

        self.voxels.set(index as usize, i);
        Ok(())
    }

    /// Reads the voxel at `(x, y, z)`, or reports `ChunkOutOfBoundError` when
    /// the coordinate is out of bound. Never mutates the chunk.
    pub fn get_voxel(&self, x: i64, y: i64, z: i64) -> (r: Result<u8, ChunkOutOfBoundError>)
        requires
            self.wf(),
        ensures
            r is Ok <==> self.spec_in_bound(x as int, y as int, z as int),
            self.spec_in_bound(x as int, y as int, z as int) ==> r == Ok::<
                u8,
                ChunkOutOfBoundError,
            >(self.spec_voxel(x as int, y as int, z as int)),
            !self.spec_in_bound(x as int, y as int, z as int) ==> r == Err::<
                u8,
                ChunkOutOfBoundError,
            >(ChunkOutOfBoundError),
    {
        if self.is_out_of_bound(x, y, z) {
            return Err(ChunkOutOfBoundError);
        }

        proof {
            lemma_flat_index_arith(
                self.size_x as int,
                self.size_y as int,
                self.size_z as int,
                x as int,
                y as int,
                z as int,
            );
        }
        let index = (z * self.size_x as i64 * self.size_y as i64) + (y * self.size_x as i64) + x;

        Ok(self.voxels[index as usize])
    }

    /// True iff `(x, y, z)` holds a solid (non-air) voxel.
    ///
    /// An out-of-bound coordinate is treated as air, not as an error: the
    /// mesh builder probes the neighbors of boundary voxels, and a missing
    /// neighbor exposes a face exactly as an air neighbor does.
    pub fn is_solid(&self, x: i64, y: i64, z: i64) -> (r: bool)
        requires
            self.wf(),
        ensures
            r == self.spec_solid(x as int, y as int, z as int),
    {
        match self.get_voxel(x, y, z) {
            Ok(voxel) => is_solid(voxel),
            Err(_) => false,
        }
    }

    /// True iff `(x, y, z)` does not hold a solid voxel.
    pub fn is_air(&self, x: i64, y: i64, z: i64) -> (r: bool)
        requires
            self.wf(),
        ensures
            r == !self.spec_solid(x as int, y as int, z as int),
    {
        !self.is_solid(x, y, z)
    }

    pub fn is_position_solid(&self, position: &Position) -> (r: bool)
        requires
            self.wf(),
        ensures
            r == self.spec_solid(position.x as int, position.y as int, position.z as int),
    {
        self.is_solid(position.x, position.y, position.z)
    }

    pub fn is_position_air(&self, position: &Position) -> (r: bool)
        requires
            self.wf(),
        ensures
            r == !self.spec_solid(position.x as int, position.y as int, position.z as int),
    {
        self.is_air(position.x, position.y, position.z)
    }
}

proof fn lemma_flat_index_in_range(sx: int, sy: int, sz: int, x: int, y: int, z: int)
    by (nonlinear_arith)
    requires
        0 <= x < sx,
        0 <= y < sy,
        0 <= z < sz,
    ensures
        0 <= z * (sx * sy) + y * sx + x < sx * sy * sz,
{
}

/// Bounds on the intermediate products of the linear-index computation, for
/// dimensions that fit in a byte, together with its reassociation.
proof fn lemma_flat_index_arith(sx: int, sy: int, sz: int, x: int, y: int, z: int)
    by (nonlinear_arith)
    requires
        0 <= x < sx <= 255,
        0 <= y < sy <= 255,
        0 <= z < sz <= 255,
    ensures
        0 <= z * sx <= 65025,
        0 <= z * sx * sy <= 16581375,
        0 <= y * sx <= 65025,
        z * sx * sy + y * sx + x == z * (sx * sy) + y * sx + x,
        0 <= z * (sx * sy) + y * sx + x < sx * sy * sz <= 16581375,
{
}

/// The volume of a chunk with byte-sized dimensions fits comfortably in 32
/// bits.
pub(crate) proof fn lemma_volume_bound(sx: int, sy: int, sz: int)
    by (nonlinear_arith)
    requires
        0 <= sx <= 255,
        0 <= sy <= 255,
        0 <= sz <= 255,
    ensures
        0 <= sx * sy <= 65025,
        0 <= sx * sy * sz <= 16581375,
{
}

proof fn lemma_flat_index_injective(
    sx: int,
    sy: int,
    sz: int,
    x1: int,
    y1: int,
    z1: int,
    x2: int,
    y2: int,
    z2: int,
)
    by (nonlinear_arith)
    requires
        0 <= x1 < sx,
        0 <= y1 < sy,
        0 <= z1 < sz,
        0 <= x2 < sx,
        0 <= y2 < sy,
        0 <= z2 < sz,
        z1 * (sx * sy) + y1 * sx + x1 == z2 * (sx * sy) + y2 * sx + x2,
    ensures
        x1 == x2 && y1 == y2 && z1 == z2,
{
}

/// Setting a voxel and reading the same coordinate back yields the value
/// that was set, and leaves every other in-bound coordinate unchanged.
///
/// `post` is related to `pre` exactly as `set_voxel` relates the chunk after
/// a successful call to the chunk before it.
pub proof fn lemma_set_then_get_voxel(pre: Chunk, post: Chunk, x: int, y: int, z: int, v: u8)
    requires
        pre.wf(),
        pre.spec_in_bound(x, y, z),
        post.size_x == pre.size_x,
        post.size_y == pre.size_y,
        post.size_z == pre.size_z,
        post.voxels@ == pre.voxels@.update(pre.linear_index(x, y, z), v),
    ensures
        post.wf(),
        post.spec_voxel(x, y, z) == v,
        forall|x2: int, y2: int, z2: int|
            pre.spec_in_bound(x2, y2, z2) && (x2 != x || y2 != y || z2 != z)
                ==> post.spec_voxel(x2, y2, z2) == pre.spec_voxel(x2, y2, z2),
{
    pre.lemma_linear_index_in_range(x, y, z);
    assert forall|x2: int, y2: int, z2: int|
        pre.spec_in_bound(x2, y2, z2) && (x2 != x || y2 != y || z2 != z)
            implies post.spec_voxel(x2, y2, z2) == pre.spec_voxel(x2, y2, z2) by {
        pre.lemma_linear_index_in_range(x2, y2, z2);
        if pre.linear_index(x2, y2, z2) == pre.linear_index(x, y, z) {
            pre.lemma_linear_index_injective(x2, y2, z2, x, y, z);
        }
    }
}

} // verus!
