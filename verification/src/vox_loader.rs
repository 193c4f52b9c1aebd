use vstd::prelude::*;

use crate::chunk::{lemma_volume_bound, Chunk};

verus! {

/// The only `.vox` format version this loader understands.
pub const SUPPORTED_VOX_VERSION: u32 = 150;

/// One voxel of a parsed `.vox` model: its position in the file's own
/// coordinate system and its palette index.
#[derive(Copy, Clone, Debug, PartialEq, Eq, Structural)]
pub struct VoxModelVoxel {
    pub x: u8,
    pub y: u8,
    pub z: u8,
    pub i: u8,
}

/// A parsed `.vox` model as plain values: its declared dimensions and its
/// voxel list. A host that reads and parses the file hands this over; the
/// loader itself never touches a file.
#[derive(Debug, Clone, PartialEq)]
pub struct VoxModel {
    pub size_x: u32,
    pub size_y: u32,
    pub size_z: u32,
    pub voxels: Vec<VoxModelVoxel>,
}

/// Why a parsed `.vox` model could not be turned into a chunk.
#[derive(Copy, Clone, Debug, PartialEq, Eq, Structural)]
pub enum VoxLoadError {
    /// The file's version field is not `SUPPORTED_VOX_VERSION`; carries the
    /// version that was found.
    UnsupportedVersion(u32),
    /// The file holds no model at all.
    NoModels,
    /// A voxel of the model falls outside the model's declared dimensions.
    VoxelOutOfBound,
}

/// The flat voxel grid that results from placing the model voxels `vs`, in
/// order, into the grid `grid` of a chunk with dimensions `(sx, sy, sz)`,
/// or `None` if some voxel lands out of bound.
///
/// A `.vox` file is Z-up while the chunk is Y-up, so a model voxel at
/// `(x, y, z)` is placed at chunk coordinate `(x, z, size_y - y - 1)`,
/// where `size_y` is the model's declared Y extent: the model's depth axis
/// becomes the chunk's height axis and the model's Y axis is flipped.
pub open spec fn spec_fill(
    grid: Seq<u8>,
    sx: int,
    sy: int,
    sz: int,
    model_size_y: int,
    vs: Seq<VoxModelVoxel>,
) -> Option<Seq<u8>>
    decreases vs.len(),
{
    if vs.len() == 0 {
        Some(grid)
    } else {
        match spec_fill(grid, sx, sy, sz, model_size_y, vs.drop_last()) {
            Option::None => Option::None,
            Option::Some(g) => {
                let v = vs.last();
                let x = v.x as int;
                let y = v.z as int;
                let z = model_size_y - v.y - 1;
                if 0 <= x < sx && 0 <= y < sy && 0 <= z < sz {
                    Some(g.update(z * (sx * sy) + y * sx + x, v.i))
                } else {
                    Option::None
                }
            },
        }
    }
}

/// The grid that loading model `m` produces: its voxels placed into an
/// all-air grid sized `(m.size_x, m.size_z, m.size_y)`.
pub open spec fn spec_load_grid(m: VoxModel) -> Option<Seq<u8>> {
    spec_fill(
        Seq::new((m.size_x as int * m.size_z as int * m.size_y as int) as nat, |i: int| 0u8),
        m.size_x as int,
        m.size_z as int,
        m.size_y as int,
        m.size_y as int,
        m.voxels@,
    )
}

proof fn lemma_fill_none_persists(
    grid: Seq<u8>,
    sx: int,
    sy: int,
    sz: int,
    model_size_y: int,
    vs: Seq<VoxModelVoxel>,
    j: int,
)
    requires
        0 <= j <= vs.len(),
        spec_fill(grid, sx, sy, sz, model_size_y, vs.subrange(0, j)) is None,
    ensures
        spec_fill(grid, sx, sy, sz, model_size_y, vs) is None,
    decreases vs.len() - j,
{
    if j == vs.len() {
        assert(vs.subrange(0, j) =~= vs);
    } else {
        assert(vs.subrange(0, j + 1).drop_last() =~= vs.subrange(0, j));
        lemma_fill_none_persists(grid, sx, sy, sz, model_size_y, vs, j + 1);
    }
}

/// Builds chunks out of parsed `.vox` models.
#[derive(Default)]
pub struct VoxLoader {}

impl VoxLoader {
    /// Turns parsed `.vox` file data into a chunk.
    ///
    /// Fails when the version is not the supported one or when the file
    /// holds no model; otherwise the first model is loaded (any further
    /// models are ignored) into a chunk sized `(size_x, size_z, size_y)`,
    /// with each voxel placed as `spec_fill` describes. A voxel outside the
    /// model's declared dimensions is reported as `VoxelOutOfBound`.
    pub fn from_models(version: u32, models: &Vec<VoxModel>) -> (r: Result<Chunk, VoxLoadError>)
        requires
            models@.len() > 0 ==> models@[0].size_x <= 255 && models@[0].size_y <= 255
                && models@[0].size_z <= 255,
        ensures
            version != SUPPORTED_VOX_VERSION ==> r == Err::<Chunk, VoxLoadError>(
                VoxLoadError::UnsupportedVersion(version),
            ),
            version == SUPPORTED_VOX_VERSION && models@.len() == 0 ==> r == Err::<
                Chunk,
                VoxLoadError,
            >(VoxLoadError::NoModels),
            version == SUPPORTED_VOX_VERSION && models@.len() > 0 ==> match spec_load_grid(
                models@[0],
            ) {
                Option::Some(g) => r matches Ok(c) && c.wf() && c.size_x == models@[0].size_x as u8
                    && c.size_y == models@[0].size_z as u8 && c.size_z == models@[0].size_y as u8
                    && c.voxels@ == g,
                Option::None => r == Err::<Chunk, VoxLoadError>(VoxLoadError::VoxelOutOfBound),
            },
    {
        if version != SUPPORTED_VOX_VERSION {
            return Err(VoxLoadError::UnsupportedVersion(version));
        }

        if models.len() == 0 {
            return Err(VoxLoadError::NoModels);
        }

        let model = &models[0];
        let ghost m = models@[0];
        let ghost sx = m.size_x as int;
        let ghost sy = m.size_z as int;
        let ghost sz = m.size_y as int;
        let ghost grid0 = Seq::new((sx * sy * sz) as nat, |i: int| 0u8);

        let mut chunk = Chunk::new(model.size_x as u8, model.size_z as u8, model.size_y as u8);

        proof {
            lemma_volume_bound(sx, sy, sz);
            assert(chunk.voxels@ =~= grid0);
            assert(m.voxels@.subrange(0, 0) =~= Seq::<VoxModelVoxel>::empty());
        }

        let mut idx: usize = 0;
        while idx < model.voxels.len()
            invariant
                version == SUPPORTED_VOX_VERSION,
                models@.len() > 0,
                m == models@[0],
                model == &models@[0],
                m.size_x <= 255 && m.size_y <= 255 && m.size_z <= 255,
                sx == m.size_x as int && sy == m.size_z as int && sz == m.size_y as int,
                grid0 == Seq::new((sx * sy * sz) as nat, |i: int| 0u8),
                chunk.wf(),
                chunk.size_x == m.size_x as u8,
                chunk.size_y == m.size_z as u8,
                chunk.size_z == m.size_y as u8,
                idx <= m.voxels@.len(),
                spec_fill(grid0, sx, sy, sz, sz, m.voxels@.subrange(0, idx as int)) == Some(
                    chunk.voxels@,
                ),
            decreases model.voxels@.len() - idx,
        {
            let v = model.voxels[idx];
            let target_z = model.size_y as i64 - v.y as i64 - 1;

            let ghost voxels_before = chunk.voxels@;
            let placed = chunk.set_voxel(v.x as i64, v.z as i64, target_z, v.i);

            proof {
                assert(m.voxels@.subrange(0, idx as int + 1).drop_last() =~= m.voxels@.subrange(
                    0,
                    idx as int,
                ));
                assert(m.voxels@.subrange(0, idx as int + 1).last() == m.voxels@[idx as int]);
            }

            match placed {
                Ok(_) => {},
                Err(_) => {
                    proof {
                        assert(spec_fill(
                            grid0,
                            sx,
                            sy,
                            sz,
                            sz,
                            m.voxels@.subrange(0, idx as int + 1),
                        ) is None);
                        lemma_fill_none_persists(grid0, sx, sy, sz, sz, m.voxels@, idx as int + 1);
                    }
                    return Err(VoxLoadError::VoxelOutOfBound);
                },
            }

            idx = idx + 1;
        }

        proof {
            assert(m.voxels@.subrange(0, m.voxels@.len() as int) =~= m.voxels@);
        }

        Ok(chunk)
    }
}

} // verus!
