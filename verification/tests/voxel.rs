use lau_protocol::{VoxelChunk, CHUNK_SIZE, CHUNK_VOLUME};

#[test]
fn chunk_starts_empty() {
    let c = VoxelChunk::new();
    assert_eq!(c.get(0, 0, 0), 0);
    assert_eq!(c.get(15, 15, 15), 0);
}

#[test]
fn chunk_set_and_get() {
    let mut c = VoxelChunk::new();
    c.set(5, 10, 3, 42);
    assert_eq!(c.get(5, 10, 3), 42);
    assert_eq!(c.get(5, 10, 4), 0);
}

#[test]
fn chunk_serialization() {
    let mut c = VoxelChunk::new();
    c.set(0, 0, 0, 7);
    let slice = c.as_slice();
    assert_eq!(slice[0], 7);
    assert_eq!(slice.len(), CHUNK_SIZE * CHUNK_SIZE * CHUNK_SIZE);
}

#[test]
fn chunk_storage_order_is_x_then_y_then_z() {
    let mut c = VoxelChunk::new();
    c.set(1, 2, 3, 9);
    assert_eq!(c.as_slice()[1 + 2 * 16 + 3 * 256], 9);
    assert_eq!(c.as_slice().iter().filter(|m| **m != 0).count(), 1);
}

#[test]
fn chunk_set_overwrites_only_its_voxel() {
    let mut c = VoxelChunk::new();
    c.set(2, 2, 2, 5);
    c.set(2, 2, 2, 6);
    c.set(3, 2, 2, 1);
    assert_eq!(c.get(2, 2, 2), 6);
    assert_eq!(c.get(3, 2, 2), 1);
    assert_eq!(c.get(1, 2, 2), 0);
}

#[test]
fn chunk_from_voxels_checks_length() {
    assert!(VoxelChunk::from_voxels(vec![0u8; 10]).is_none());
    let mut raw = vec![0u8; CHUNK_VOLUME];
    raw[4095] = 3;
    let c = VoxelChunk::from_voxels(raw).unwrap();
    assert_eq!(c.get(15, 15, 15), 3);
}

#[test]
fn chunk_default_and_clone() {
    let mut c = VoxelChunk::default();
    assert_eq!(c, VoxelChunk::new());
    c.set(4, 4, 4, 8);
    let d = c.clone();
    assert_eq!(d.get(4, 4, 4), 8);
    assert_eq!(d, c);
}
