use bigseed::vox_loader::{VoxLoadError, VoxLoader, VoxModel, VoxModelVoxel, SUPPORTED_VOX_VERSION};

fn voxel(x: u8, y: u8, z: u8, i: u8) -> VoxModelVoxel {
    VoxModelVoxel { x, y, z, i }
}

#[test]
fn load_vox() {
    // A model shaped like the reference asset around the probed
    // coordinates: the loader swaps the model's Y and Z axes and flips the
    // model's Y, so model voxel (x, y, z) lands at chunk (x, z, size_y-y-1).
    let model = VoxModel {
        size_x: 2,
        size_y: 4,
        size_z: 4,
        voxels: vec![
            voxel(0, 1, 0, 78),
            voxel(0, 2, 0, 78),
            voxel(0, 3, 0, 78),
            voxel(1, 3, 0, 78),
            voxel(0, 3, 1, 78),
        ],
    };

    let chunk = VoxLoader::from_models(SUPPORTED_VOX_VERSION, &vec![model]).unwrap();

    assert_eq!(chunk.get_voxel(0, 0, 2).unwrap(), 78);
    assert_eq!(chunk.get_voxel(0, 0, 1).unwrap(), 78);
    assert_eq!(chunk.get_voxel(0, 0, 0).unwrap(), 78);
    assert_eq!(chunk.get_voxel(1, 0, 0).unwrap(), 78);
    assert_eq!(chunk.get_voxel(0, 1, 0).unwrap(), 78);
    assert_eq!(chunk.get_voxel(1, 3, 2).unwrap(), 0);
}

#[test]
fn loaded_chunk_swaps_height_and_depth() {
    let model = VoxModel { size_x: 3, size_y: 5, size_z: 7, voxels: vec![] };

    let chunk = VoxLoader::from_models(SUPPORTED_VOX_VERSION, &vec![model]).unwrap();

    assert_eq!(chunk.size_x, 3);
    assert_eq!(chunk.size_y, 7);
    assert_eq!(chunk.size_z, 5);
}

#[test]
fn unsupported_version_is_rejected() {
    let model = VoxModel { size_x: 1, size_y: 1, size_z: 1, voxels: vec![] };

    let result = VoxLoader::from_models(149, &vec![model]);

    assert_eq!(result.unwrap_err(), VoxLoadError::UnsupportedVersion(149));
}

#[test]
fn missing_models_are_rejected() {
    let result = VoxLoader::from_models(SUPPORTED_VOX_VERSION, &vec![]);

    assert_eq!(result.unwrap_err(), VoxLoadError::NoModels);
}

#[test]
fn only_the_first_model_is_loaded() {
    let first = VoxModel { size_x: 1, size_y: 1, size_z: 1, voxels: vec![voxel(0, 0, 0, 3)] };
    let second = VoxModel { size_x: 2, size_y: 2, size_z: 2, voxels: vec![] };

    let chunk = VoxLoader::from_models(SUPPORTED_VOX_VERSION, &vec![first, second]).unwrap();

    assert_eq!(chunk.size_x, 1);
    assert_eq!(chunk.get_voxel(0, 0, 0).unwrap(), 3);
}

#[test]
fn out_of_bound_voxel_is_rejected() {
    // The voxel's Z coordinate becomes the chunk's Y coordinate, and 5
    // does not fit a model declared one voxel high.
    let model = VoxModel { size_x: 1, size_y: 1, size_z: 1, voxels: vec![voxel(0, 0, 5, 3)] };

    let result = VoxLoader::from_models(SUPPORTED_VOX_VERSION, &vec![model]);

    assert_eq!(result.unwrap_err(), VoxLoadError::VoxelOutOfBound);
}
