use vstd::prelude::*;

verus! {

/// Edge length of a chunk, in voxels.
pub const CHUNK_SIZE: usize = 16;

/// Number of voxels in one chunk (`CHUNK_SIZE` cubed).
pub const CHUNK_VOLUME: usize = CHUNK_SIZE * CHUNK_SIZE * CHUNK_SIZE;

/// Position in a chunk's flat storage of the voxel at local coordinates
/// `(x, y, z)`: x varies fastest, then y, then z.
pub open spec fn voxel_index(x: int, y: int, z: int) -> int {
    x + y * 16 + z * 256
}

/// Whether local coordinates address a voxel inside the chunk's storage.
pub open spec fn in_chunk(x: int, y: int, z: int) -> bool {
    0 <= voxel_index(x, y, z) < CHUNK_VOLUME
}

/// A 16x16x16 cube of voxels. Materials are stored as `u8` values.
#[derive(Debug, PartialEq, Eq)]
pub struct VoxelChunk {
    voxels: Vec<u8>,
}

impl View for VoxelChunk {
    type V = Seq<u8>;

    /// The materials of the chunk, in storage order (see `voxel_index`).
    closed spec fn view(&self) -> Seq<u8> {
        self.voxels@
    }
}

impl VoxelChunk {
    /// A well-formed chunk holds exactly one material per voxel.
    pub open spec fn wf(&self) -> bool {
        self@.len() == CHUNK_VOLUME
    }

    /// Create an empty chunk (all air / material 0).
    pub fn new() -> (chunk: Self)
        ensures
            chunk.wf(),
            forall|i: int| 0 <= i < CHUNK_VOLUME ==> #[trigger] chunk@[i] == 0u8,
    {
        let voxels: Vec<u8> = vec![0u8; CHUNK_VOLUME];
        VoxelChunk { voxels }
    }

    /// Rebuild a chunk from its raw storage, as returned by `as_slice`.
    /// Gives `None` when the storage does not hold exactly one chunk.
    pub fn from_voxels(voxels: Vec<u8>) -> (chunk: Option<Self>)
        ensures
            chunk is Some <==> voxels@.len() == CHUNK_VOLUME,
            chunk matches Some(c) ==> c@ == voxels@ && c.wf(),
    {
        if voxels.len() == CHUNK_VOLUME {
            Some(VoxelChunk { voxels })
        } else {
            None
        }
    }

    fn idx(x: usize, y: usize, z: usize) -> (i: usize)
        requires
            in_chunk(x as int, y as int, z as int),
        ensures
            i as int == voxel_index(x as int, y as int, z as int),
            i == x + y * 16 + z * 256,
            i < CHUNK_VOLUME,
    {
        x + y * CHUNK_SIZE + z * CHUNK_SIZE * CHUNK_SIZE
    }

    /// Get the material at local coordinates.
    pub fn get(&self, x: usize, y: usize, z: usize) -> (material: u8)
        requires
            self.wf(),
            in_chunk(x as int, y as int, z as int),
        ensures
            material == self@[voxel_index(x as int, y as int, z as int)],
            material == self@[x + y * 16 + z * 256],
    {
        self.voxels[Self::idx(x, y, z)]
    }

    /// Set the material at local coordinates.
    pub fn set(&mut self, x: usize, y: usize, z: usize, material: u8)
        requires
            old(self).wf(),
            in_chunk(x as int, y as int, z as int),
        ensures
            final(self).wf(),
            final(self)@ == old(self)@.update(voxel_index(x as int, y as int, z as int), material),
            final(self)@ == old(self)@.update(x + y * 16 + z * 256, material),
    {
        let i = Self::idx(x, y, z);
        self.voxels.set(i, material);
    }

    /// Raw voxel slice for serialization.
    pub fn as_slice(&self) -> (raw: &[u8])
        ensures
            raw@ == self@,
    {
        self.voxels.as_slice()
    }
}

impl Clone for VoxelChunk {
    fn clone(&self) -> (copy: Self)
        ensures
            copy@ == self@,
    {
        VoxelChunk { voxels: self.voxels.clone() }
    }
}

impl Default for VoxelChunk {
    fn default() -> (chunk: Self)
        ensures
            chunk.wf(),
            forall|i: int| 0 <= i < CHUNK_VOLUME ==> #[trigger] chunk@[i] == 0u8,
    {
        Self::new()
    }
}

} // verus!
