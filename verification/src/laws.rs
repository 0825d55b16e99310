use vstd::prelude::*;

use crate::avatar::{lemma_phase_names_distinct, phase_animation};
use crate::float_bits::{bits_equal, F64Bits};
use crate::text::lowercase;
use crate::bridge::{enqueue, enqueue_all};
use crate::voxel::voxel_index;
use crate::world::{
    chunk_coord, chunk_of, local_index, local_of, moved_to, writes_voxel, GameAgent, GameWorld,
};

verus! {

/// A voxel reads back as the material last written at its position.
pub proof fn law_voxel_read_back(
    before: GameWorld,
    after: GameWorld,
    x: i32,
    y: i32,
    z: i32,
    material: u8,
)
    requires
        writes_voxel(before, after, x, y, z, material),
    ensures
        after.voxel_at(x, y, z) == material,
{
}

/// Writing a voxel leaves every other position as it was.
pub proof fn law_voxel_write_is_local(
    before: GameWorld,
    after: GameWorld,
    x: i32,
    y: i32,
    z: i32,
    material: u8,
    a: i32,
    b: i32,
    c: i32,
)
    requires
        writes_voxel(before, after, x, y, z, material),
        !(a == x && b == y && c == z),
    ensures
        after.voxel_at(a, b, c) == before.voxel_at(a, b, c),
{
}

/// Of two writes at one position the later one wins: placing a voxel and
/// then removing it leaves that position empty and every other position as
/// it was before the placing.
pub proof fn law_voxel_last_write_wins(
    first: GameWorld,
    middle: GameWorld,
    last: GameWorld,
    x: i32,
    y: i32,
    z: i32,
    earlier: u8,
    later: u8,
)
    requires
        writes_voxel(first, middle, x, y, z, earlier),
        writes_voxel(middle, last, x, y, z, later),
    ensures
        writes_voxel(first, last, x, y, z, later),
{
}

/// Every world coordinate is its chunk coordinate times the chunk size plus
/// its place inside the chunk, which lies in `0..16`; the chunk coordinate
/// of an `i32` fits in an `i32`.
pub proof fn law_coordinate_decomposition(v: i32)
    ensures
        0 <= local_of(v as int) < 16,
        v == 16 * chunk_coord(v as int) + local_of(v as int),
        i32::MIN <= chunk_coord(v as int) <= i32::MAX,
{
}

/// Distinct local coordinates of a chunk (each in `0..16`) are stored at
/// distinct places, so setting one voxel of a chunk changes no other.
pub proof fn law_chunk_storage_distinct(x: int, y: int, z: int, a: int, b: int, c: int)
    requires
        0 <= x < 16,
        0 <= y < 16,
        0 <= z < 16,
        0 <= a < 16,
        0 <= b < 16,
        0 <= c < 16,
        !(x == a && y == b && z == c),
    ensures
        voxel_index(x, y, z) != voxel_index(a, b, c),
{
    assert(voxel_index(x, y, z) != voxel_index(a, b, c)) by (nonlinear_arith)
        requires
            0 <= x < 16,
            0 <= y < 16,
            0 <= z < 16,
            0 <= a < 16,
            0 <= b < 16,
            0 <= c < 16,
            !(x == a && y == b && z == c),
    ;
}

/// A bounded queue keeps the first messages that arrive, in arrival order,
/// up to its capacity, and drops every later one: feeding `msgs` into a
/// queue that is within its capacity leaves the queue followed by `msgs`,
/// cut to `capacity` messages.
pub proof fn law_bridge_keeps_first<M>(queue: Seq<M>, capacity: nat, msgs: Seq<M>)
    requires
        queue.len() <= capacity,
    ensures
        enqueue_all(queue, capacity, msgs) == (queue + msgs).take(
            if queue.len() + msgs.len() < capacity {
                (queue.len() + msgs.len()) as int
            } else {
                capacity as int
            },
        ),
    decreases msgs.len(),
{
    if msgs.len() == 0 {
        assert((queue + msgs).take(queue.len() as int) =~= queue);
    } else {
        let earlier = msgs.drop_last();
        law_bridge_keeps_first(queue, capacity, earlier);
        let kept = enqueue_all(queue, capacity, earlier);
        if queue.len() + earlier.len() < capacity {
            assert((queue + msgs).take((queue.len() + msgs.len()) as int) =~= kept.push(msgs.last()));
        } else {
            assert((queue + msgs).take(capacity as int) =~= (queue + earlier).take(
                capacity as int,
            ));
        }
    }
}

/// A message ported into a queue with room comes out of the next flush last,
/// after all messages queued before it; a message ported into a full queue
/// is dropped and the queue stays as it was.
pub proof fn law_port_then_flush<M>(queue: Seq<M>, capacity: nat, msg: M)
    ensures
        queue.len() < capacity ==> enqueue(queue, capacity, msg).len() == queue.len() + 1
            && enqueue(queue, capacity, msg).last() == msg && enqueue(queue, capacity, msg).drop_last()
            == queue,
        queue.len() >= capacity ==> enqueue(queue, capacity, msg) == queue,
{
    if queue.len() < capacity {
        assert(queue.push(msg).drop_last() =~= queue);
    }
}

/// Moving an agent keeps the same agents in the world: the moved one is
/// found under its id at the new position, with its id, appearance and room
/// unchanged, and every other agent is as it was.
pub proof fn law_move_agent_keeps_agents(
    before: GameWorld,
    after: GameWorld,
    id: Seq<char>,
    x: F64Bits,
    y: F64Bits,
    z: F64Bits,
)
    requires
        before.agent_map().contains_key(id),
        after.agent_map() == before.agent_map().insert(
            id,
            moved_to(before.agent_map()[id], x, y, z),
        ),
    ensures
        after.agent_map().dom() == before.agent_map().dom(),
        after.agent_map()[id].position == (x, y, z),
        after.agent_map()[id].id == before.agent_map()[id].id,
        after.agent_map()[id].appearance == before.agent_map()[id].appearance,
        after.agent_map()[id].room_id == before.agent_map()[id].room_id,
        forall|other: Seq<char>|
            other != id && #[trigger] before.agent_map().contains_key(other) ==> after.agent_map()[other]
                == before.agent_map()[other],
{
    assert(after.agent_map().dom() =~= before.agent_map().dom());
}

/// Adding an agent under an id that is already in the world replaces that
/// agent and adds none: the world keeps the same set of ids.
pub proof fn law_add_agent_same_id_replaces(
    before: GameWorld,
    after: GameWorld,
    id: Seq<char>,
    agent: GameAgent,
)
    requires
        before.agent_map().contains_key(id),
        after.agent_map() == before.agent_map().insert(id, agent),
    ensures
        after.agent_map().dom() == before.agent_map().dom(),
        after.agent_map()[id] == agent,
{
    assert(after.agent_map().dom() =~= before.agent_map().dom());
}

/// The chunk that holds a world position is found by floor division of each
/// coordinate, axis by axis: the chunk's first coordinate on each axis is
/// the multiple of 16 at or below the position's coordinate.
pub proof fn law_chunk_of_is_floor(x: i32, y: i32, z: i32)
    ensures
        16 * chunk_of(x, y, z).0 <= x < 16 * chunk_of(x, y, z).0 + 16,
        16 * chunk_of(x, y, z).1 <= y < 16 * chunk_of(x, y, z).1 + 16,
        16 * chunk_of(x, y, z).2 <= z < 16 * chunk_of(x, y, z).2 + 16,
{
}

/// A chunk stores its voxels with x varying fastest, then y, then z: local
/// voxel `(x, y, z)` is at `x + 16 y + 256 z`, inside the chunk's storage.
pub proof fn law_voxel_index_layout(x: int, y: int, z: int)
    requires
        0 <= x < 16,
        0 <= y < 16,
        0 <= z < 16,
    ensures
        voxel_index(x, y, z) == x + 16 * y + 256 * z,
        0 <= voxel_index(x, y, z) < 4096,
{
}

/// Inside its chunk, a world position is stored at the place given by its
/// coordinates modulo 16, each axis in order.
pub proof fn law_local_index_layout(x: i32, y: i32, z: i32)
    ensures
        local_index(x, y, z) == (x as int % 16) + 16 * (y as int % 16) + 256 * (z as int % 16),
{
}

/// The material of a world position is the byte of the chunk at
/// `(floor(x/16), floor(y/16), floor(z/16))` at place
/// `(x mod 16) + 16 (y mod 16) + 256 (z mod 16)` of its storage, or 0 when
/// there is no such chunk.
pub proof fn law_world_voxel_layout(w: GameWorld, x: i32, y: i32, z: i32)
    ensures
        ({
            let key = ((x as int / 16) as i32, (y as int / 16) as i32, (z as int / 16) as i32);
            let at = (x as int % 16) + 16 * (y as int % 16) + 256 * (z as int % 16);
            w.voxel_at(x, y, z) == if w.chunk_map().contains_key(key) {
                w.chunk_map()[key]@[at]
            } else {
                0u8
            }
        }),
{
}

/// The four known phases have animations of their own; every other phase,
/// whatever its case, is shown by its name in lowercase.
pub proof fn law_phase_animation(phase: Seq<char>)
    ensures
        phase_animation("Gestating"@) == "idle"@,
        phase_animation("Forming"@) == "exploring"@,
        phase_animation("Stable"@) == "confident"@,
        phase_animation("Dissolving"@) == "fading"@,
        phase != "Gestating"@ && phase != "Forming"@ && phase != "Stable"@ && phase
            != "Dissolving"@ ==> phase_animation(phase) == lowercase(phase),
{
    lemma_phase_names_distinct();
}

/// Real numbers held as `f64` bits compare as `f64` values do: two of them
/// are equal only when their bits are equal or both are zeros (of either
/// sign); equal bits are equal unless they encode a NaN; a NaN (all exponent
/// bits set, fraction not zero) equals nothing.
pub proof fn law_f64_bits_equality(a: u64, b: u64)
    ensures
        bits_equal(a, b) ==> a == b || ((a == 0u64 || a == 0x8000_0000_0000_0000u64) && (b == 0u64
            || b == 0x8000_0000_0000_0000u64)),
        (a == 0u64 || a == 0x8000_0000_0000_0000u64) && (b == 0u64 || b
            == 0x8000_0000_0000_0000u64) ==> bits_equal(a, b),
        a == b && ((a & 0x7ff0_0000_0000_0000u64) != 0x7ff0_0000_0000_0000u64 || (a
            & 0x000f_ffff_ffff_ffffu64) == 0u64) ==> bits_equal(a, b),
        (a & 0x7ff0_0000_0000_0000u64) == 0x7ff0_0000_0000_0000u64 && (a & 0x000f_ffff_ffff_ffffu64)
            != 0u64 ==> !bits_equal(a, b) && !bits_equal(b, a),
{
    assert(bits_equal(a, b) ==> a == b || ((a == 0u64 || a == 0x8000_0000_0000_0000u64) && (b
        == 0u64 || b == 0x8000_0000_0000_0000u64))) by (bit_vector);
    assert((a == 0u64 || a == 0x8000_0000_0000_0000u64) && (b == 0u64 || b
        == 0x8000_0000_0000_0000u64) ==> bits_equal(a, b)) by (bit_vector);
    assert(a == b && ((a & 0x7ff0_0000_0000_0000u64) != 0x7ff0_0000_0000_0000u64 || (a
        & 0x000f_ffff_ffff_ffffu64) == 0u64) ==> bits_equal(a, b)) by (bit_vector);
    assert((a & 0x7ff0_0000_0000_0000u64) == 0x7ff0_0000_0000_0000u64 && (a
        & 0x000f_ffff_ffff_ffffu64) != 0u64 ==> !bits_equal(a, b) && !bits_equal(b, a))
        by (bit_vector);
}

} // verus!
