//! Layered Agent-UI protocol: bridges room agents to external game engines
//! and UIs, with a small voxel world model.

pub mod avatar;
pub mod bridge;
pub mod laws;
pub mod message;
pub mod float_bits;
pub mod text;
pub mod voxel;
pub mod world;

pub use avatar::{AvatarAppearance, AvatarMapping};
pub use bridge::LauBridge;
pub use message::LauMessage;
pub use float_bits::F64Bits;
pub use voxel::{VoxelChunk, CHUNK_SIZE, CHUNK_VOLUME};
pub use world::{GameAgent, GameWorld};
