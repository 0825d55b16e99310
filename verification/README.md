# lau_protocol

Layered Agent-UI protocol: bridges room agents to external game engines and
UIs, with a small voxel world model.

- `src/` is the verified library (Verus): bounded message queues
  (`LauBridge`), voxel chunks and the voxel/agent world (`VoxelChunk`,
  `GameWorld`), the phase-to-animation mapping, and the laws that tie the
  operations together (`src/laws.rs`). Real numbers are held as the bit
  patterns of `f64` values (`F64Bits`, compared as `f64` values are) and
  only carried.
- `app/` is ordinary Rust: the floating-point functions (appearance from
  vibe, visibility from confidence, agents near a point) and the serde forms
  of the library's types.
- `tests/` exercises the library at run time.
