use bigseed::chunk::{is_solid, Chunk, ChunkOutOfBoundError};

#[test]
fn set_voxel() {
    let mut chunk = Chunk::new(2, 3, 4);

    let result1 = chunk.set_voxel(2, 0, 1, 1);
    let result2 = chunk.set_voxel(1, 0, 1, 1);

    assert!(result1.is_err(), "it should return an out of bound error");
    assert!(!result2.is_err(), "it should not return an error");
}

#[test]
fn get_voxel() {
    let mut chunk = Chunk::new(2, 3, 4);

    chunk.set_voxel(1, 0, 1, 1).expect("could not set voxel");
    let voxel = chunk.get_voxel(1, 0, 1);

    assert_eq!(voxel.unwrap(), 1, "it should get the correct voxel");
}

#[test]
fn chunk_set_voxel() {
    let mut chunk = Chunk::new(2, 3, 4);

    let result1 = chunk.set_voxel(2, 0, 1, 1);
    let result2 = chunk.set_voxel(1, 0, 1, 1);

    assert!(result1.is_err(), "it should return an out of bound error");
    assert!(!result2.is_err(), "it should not return an error");
}

#[test]
fn chunk_get_voxel() {
    let mut chunk = Chunk::new(2, 3, 4);

    chunk.set_voxel(1, 0, 1, 1).expect("could not set voxel");
    let voxel = chunk.get_voxel(1, 0, 1);

    assert_eq!(voxel.unwrap(), 1, "it should get the correct voxel");
}

#[test]
fn new_chunk_is_all_air() {
    let chunk = Chunk::new(2, 3, 4);

    for z in 0..4 {
        for y in 0..3 {
            for x in 0..2 {
                assert_eq!(chunk.get_voxel(x, y, z).unwrap(), 0);
                assert!(!chunk.is_solid(x, y, z));
            }
        }
    }
}

#[test]
fn zero_sized_chunk_is_legal() {
    let chunk = Chunk::new(0, 0, 0);

    assert_eq!(chunk.voxels.len(), 0);
    assert!(chunk.get_voxel(0, 0, 0).is_err());
}

#[test]
fn bounds_rejection_does_not_mutate() {
    let mut chunk = Chunk::new(2, 3, 4);
    chunk.set_voxel(1, 2, 3, 9).unwrap();

    // Each axis out of range on its upper side, and negative coordinates.
    assert_eq!(chunk.set_voxel(2, 0, 0, 1), Err(ChunkOutOfBoundError));
    assert_eq!(chunk.set_voxel(0, 3, 0, 1), Err(ChunkOutOfBoundError));
    assert_eq!(chunk.set_voxel(0, 0, 4, 1), Err(ChunkOutOfBoundError));
    assert_eq!(chunk.set_voxel(-1, 0, 0, 1), Err(ChunkOutOfBoundError));
    assert_eq!(chunk.set_voxel(0, -1, 0, 1), Err(ChunkOutOfBoundError));
    assert_eq!(chunk.set_voxel(0, 0, -1, 1), Err(ChunkOutOfBoundError));
    assert_eq!(chunk.get_voxel(5, 5, 5), Err(ChunkOutOfBoundError));
    assert_eq!(chunk.get_voxel(-1, -1, -1), Err(ChunkOutOfBoundError));

    // The one voxel that was set is untouched; everything else is still air.
    for z in 0..4 {
        for y in 0..3 {
            for x in 0..2 {
                let expected = if (x, y, z) == (1, 2, 3) { 9 } else { 0 };
                assert_eq!(chunk.get_voxel(x, y, z).unwrap(), expected);
            }
        }
    }
}

#[test]
fn set_then_get_roundtrip() {
    let mut chunk = Chunk::new(3, 3, 3);

    chunk.set_voxel(0, 0, 0, 1).unwrap();
    chunk.set_voxel(2, 1, 0, 2).unwrap();
    chunk.set_voxel(0, 2, 2, 3).unwrap();
    chunk.set_voxel(2, 2, 2, 4).unwrap();

    assert_eq!(chunk.get_voxel(0, 0, 0).unwrap(), 1);
    assert_eq!(chunk.get_voxel(2, 1, 0).unwrap(), 2);
    assert_eq!(chunk.get_voxel(0, 2, 2).unwrap(), 3);
    assert_eq!(chunk.get_voxel(2, 2, 2).unwrap(), 4);

    // Overwriting a coordinate replaces only that coordinate.
    chunk.set_voxel(0, 0, 0, 7).unwrap();
    assert_eq!(chunk.get_voxel(0, 0, 0).unwrap(), 7);
    assert_eq!(chunk.get_voxel(2, 1, 0).unwrap(), 2);
}

#[test]
fn flat_storage_layout_is_x_fastest() {
    let mut chunk = Chunk::new(2, 3, 4);

    chunk.set_voxel(1, 2, 3, 42).unwrap();
    // index = z * (size_x * size_y) + y * size_x + x
    assert_eq!(chunk.voxels[3 * 2 * 3 + 2 * 2 + 1], 42);

    chunk.set_voxel(0, 1, 0, 17).unwrap();
    assert_eq!(chunk.voxels[2], 17);
}

#[test]
fn solidity_policy() {
    let mut chunk = Chunk::new(2, 2, 2);
    chunk.set_voxel(0, 0, 0, 5).unwrap();

    assert!(chunk.is_solid(0, 0, 0));
    assert!(!chunk.is_air(0, 0, 0));
    assert!(!chunk.is_solid(1, 0, 0));
    assert!(chunk.is_air(1, 0, 0));

    // An out-of-bound coordinate is treated as air, not as an error.
    assert!(!chunk.is_solid(-1, 0, 0));
    assert!(chunk.is_air(2, 0, 0));

    assert!(!is_solid(0));
    assert!(is_solid(5));
    assert!(is_solid(255));
}
