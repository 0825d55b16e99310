use std::collections::HashMap;

use vstd::prelude::*;

use crate::float_bits::F64Bits;

verus! {

/// The universal message format for the Layered Agent-UI protocol.
///
/// Real numbers are held as `F64Bits`; the library carries them without
/// arithmetic.
#[derive(Debug, Clone, PartialEq)]
pub enum LauMessage {
    /// Agent does something.
    Action { agent_id: String, action: String, params: HashMap<String, F64Bits> },
    /// Agent sees something.
    Observe { agent_id: String, sensor: String, value: F64Bits, confidence: F64Bits },
    /// Agent says something (emotion 0-1).
    Speak { agent_id: String, text: String, emotion: F64Bits },
    /// Agent moves in 3D space.
    Move { agent_id: String, x: F64Bits, y: F64Bits, z: F64Bits, facing: F64Bits },
    /// Agent interacts with object / NPC.
    Interact { agent_id: String, target_id: String, kind: String },
    /// Room state broadcast.
    StateUpdate { room_id: String, vibe: F64Bits, population: usize, events: Vec<String> },
}

} // verus!
