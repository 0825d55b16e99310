use std::collections::BTreeMap;

use vstd::prelude::*;

use crate::avatar::{is_mid_vibe, AvatarAppearance};
use crate::float_bits::F64Bits;
use crate::voxel::{in_chunk, voxel_index, VoxelChunk, CHUNK_SIZE, CHUNK_VOLUME};

verus! {

/// Index of the chunk that holds world coordinate `v` along one axis:
/// `v` divided by the chunk size, rounded towards negative infinity.
pub open spec fn chunk_coord(v: int) -> int {
    v / 16
}

/// Position of world coordinate `v` inside its chunk along one axis
/// (always in `0..16`).
pub open spec fn local_of(v: int) -> int {
    v % 16
}

/// Chunk position that holds the voxel at world coordinates `(x, y, z)`.
pub open spec fn chunk_of(x: i32, y: i32, z: i32) -> (i32, i32, i32) {
    (chunk_coord(x as int) as i32, chunk_coord(y as int) as i32, chunk_coord(z as int) as i32)
}

/// Storage index, inside its chunk, of the voxel at world coordinates `(x, y, z)`.
pub open spec fn local_index(x: i32, y: i32, z: i32) -> int {
    voxel_index(local_of(x as int), local_of(y as int), local_of(z as int))
}

fn floor_chunk(v: i32) -> (c: i32)
    ensures
        c as int == chunk_coord(v as int),
{
    let s: i32 = CHUNK_SIZE as i32;
    if v >= 0 {
        v / s
    } else {
        (v + 1) / s - 1
    }
}

fn local_coord(v: i32) -> (l: usize)
    ensures
        l as int == local_of(v as int),
        l < CHUNK_SIZE,
{
    let s: i32 = CHUNK_SIZE as i32;
    let r: i32 = v % s;
    if r < 0 {
        (r + s) as usize
    } else {
        r as usize
    }
}

/// An agent positioned in the game world.
///
/// The position holds three real coordinates as `F64Bits`.
#[derive(Debug, PartialEq)]
pub struct GameAgent {
    pub id: String,
    pub position: (F64Bits, F64Bits, F64Bits),
    pub appearance: AvatarAppearance,
    pub room_id: String,
}

impl Clone for GameAgent {
    fn clone(&self) -> (copy: Self)
        ensures
            copy == *self,
    {
        GameAgent {
            id: self.id.clone(),
            position: self.position,
            appearance: self.appearance.clone(),
            room_id: self.room_id.clone(),
        }
    }
}

/// `agent` moved to the position `(x, y, z)`, all else kept.
pub open spec fn moved_to(agent: GameAgent, x: F64Bits, y: F64Bits, z: F64Bits) -> GameAgent {
    GameAgent {
        id: agent.id,
        position: (x, y, z),
        appearance: agent.appearance,
        room_id: agent.room_id,
    }
}

/// No two agents of the list share an id.
pub open spec fn ids_distinct(agents: Seq<GameAgent>) -> bool {
    forall|i: int, j: int|
        #![trigger agents[i], agents[j]]
        0 <= i < agents.len() && 0 <= j < agents.len() && i != j ==> agents[i].id@ != agents[j].id@
}

/// Whether some agent of the list has the id `id`.
pub open spec fn has_id(agents: Seq<GameAgent>, id: Seq<char>) -> bool {
    exists|i: int| 0 <= i < agents.len() && #[trigger] agents[i].id@ == id
}

/// The agents of a list, found by their ids.
pub open spec fn agents_by_id(agents: Seq<GameAgent>) -> Map<Seq<char>, GameAgent> {
    Map::new(
        |id: Seq<char>| has_id(agents, id),
        |id: Seq<char>| agents[choose|i: int| 0 <= i < agents.len() && #[trigger] agents[i].id@ == id],
    )
}

/// In a list without repeated ids, the agent found by an id is the one
/// that carries it.
pub proof fn lemma_agents_by_id_at(agents: Seq<GameAgent>, i: int)
    requires
        ids_distinct(agents),
        0 <= i < agents.len(),
    ensures
        agents_by_id(agents).contains_key(agents[i].id@),
        agents_by_id(agents)[agents[i].id@] == agents[i],
{
    let id = agents[i].id@;
    assert(has_id(agents, id));
    let j = choose|j: int| 0 <= j < agents.len() && #[trigger] agents[j].id@ == id;
    assert(agents[j].id@ == id);
    assert(i == j);
}

/// Replacing an agent by one with the same id replaces it in the map too.
proof fn lemma_agents_by_id_update(agents: Seq<GameAgent>, i: int, agent: GameAgent)
    requires
        ids_distinct(agents),
        0 <= i < agents.len(),
        agents[i].id@ == agent.id@,
    ensures
        ids_distinct(agents.update(i, agent)),
        agents_by_id(agents.update(i, agent)) == agents_by_id(agents).insert(agent.id@, agent),
{
    let after = agents.update(i, agent);
    assert(ids_distinct(after)) by {
        assert forall|a: int, b: int|
            0 <= a < after.len() && 0 <= b < after.len() && a != b implies after[a].id@
            != after[b].id@ by {
            assert(agents[a].id@ != agents[b].id@);
        }
    }
    let m1 = agents_by_id(after);
    let m2 = agents_by_id(agents).insert(agent.id@, agent);
    assert forall|id: Seq<char>| m1.contains_key(id) <==> m2.contains_key(id) by {
        if has_id(after, id) {
            let a = choose|a: int| 0 <= a < after.len() && #[trigger] after[a].id@ == id;
            if a != i {
                assert(agents[a].id@ == id);
            }
        }
        if has_id(agents, id) {
            let a = choose|a: int| 0 <= a < agents.len() && #[trigger] agents[a].id@ == id;
            assert(after[a].id@ == id);
        }
        if id == agent.id@ {
            assert(after[i].id@ == id);
        }
    }
    assert forall|id: Seq<char>| #[trigger] m1.contains_key(id) implies m1[id] == m2[id] by {
        let a = choose|a: int| 0 <= a < after.len() && #[trigger] after[a].id@ == id;
        lemma_agents_by_id_at(after, a);
        if a != i {
            lemma_agents_by_id_at(agents, a);
        }
    }
    assert(m1 =~= m2);
}

/// Appending an agent with a new id adds it to the map.
proof fn lemma_agents_by_id_push(agents: Seq<GameAgent>, agent: GameAgent)
    requires
        ids_distinct(agents),
        !has_id(agents, agent.id@),
    ensures
        ids_distinct(agents.push(agent)),
        agents_by_id(agents.push(agent)) == agents_by_id(agents).insert(agent.id@, agent),
{
    let after = agents.push(agent);
    assert(ids_distinct(after)) by {
        assert forall|a: int, b: int|
            0 <= a < after.len() && 0 <= b < after.len() && a != b implies after[a].id@
            != after[b].id@ by {
            if a < agents.len() && b < agents.len() {
                assert(agents[a].id@ != agents[b].id@);
            } else if a < agents.len() {
                assert(agents[a] == after[a]);
            } else {
                assert(agents[b] == after[b]);
            }
        }
    }
    let m1 = agents_by_id(after);
    let m2 = agents_by_id(agents).insert(agent.id@, agent);
    assert forall|id: Seq<char>| m1.contains_key(id) <==> m2.contains_key(id) by {
        if has_id(after, id) {
            let a = choose|a: int| 0 <= a < after.len() && #[trigger] after[a].id@ == id;
            if a < agents.len() {
                assert(agents[a].id@ == id);
            }
        }
        if has_id(agents, id) {
            let a = choose|a: int| 0 <= a < agents.len() && #[trigger] agents[a].id@ == id;
            assert(after[a].id@ == id);
        }
        if id == agent.id@ {
            assert(after[agents.len() as int].id@ == id);
        }
    }
    assert forall|id: Seq<char>| #[trigger] m1.contains_key(id) implies m1[id] == m2[id] by {
        let a = choose|a: int| 0 <= a < after.len() && #[trigger] after[a].id@ == id;
        lemma_agents_by_id_at(after, a);
        if a < agents.len() {
            assert(agents[a] == after[a]);
            lemma_agents_by_id_at(agents, a);
        }
    }
    assert(m1 =~= m2);
}

/// Lightweight voxel world model with agents.
///
/// Chunks are kept by chunk position; agents are kept in a list in which
/// no id occurs twice, and are found by id.
#[derive(Debug)]
pub struct GameWorld {
    chunks: BTreeMap<(i32, i32, i32), VoxelChunk>,
    agents: Vec<GameAgent>,
}

/// Two world positions that fall in the same chunk at the same place in it
/// are the same position.
pub proof fn lemma_position_determined(x: i32, y: i32, z: i32, a: i32, b: i32, c: i32)
    requires
        chunk_of(x, y, z) == chunk_of(a, b, c),
        local_index(x, y, z) == local_index(a, b, c),
    ensures
        x == a && y == b && z == c,
{
    let (lx, ly, lz) = (local_of(x as int), local_of(y as int), local_of(z as int));
    let (la, lb, lc) = (local_of(a as int), local_of(b as int), local_of(c as int));
    assert(0 <= lx < 16 && 0 <= ly < 16 && 0 <= lz < 16);
    assert(0 <= la < 16 && 0 <= lb < 16 && 0 <= lc < 16);
    assert(lx == la && ly == lb && lz == lc) by (nonlinear_arith)
        requires
            0 <= lx < 16,
            0 <= ly < 16,
            0 <= lz < 16,
            0 <= la < 16,
            0 <= lb < 16,
            0 <= lc < 16,
            lx + ly * 16 + lz * 256 == la + lb * 16 + lc * 256,
    ;
    assert(x as int == 16 * chunk_coord(x as int) + lx);
    assert(a as int == 16 * chunk_coord(a as int) + la);
    assert(y as int == 16 * chunk_coord(y as int) + ly);
    assert(b as int == 16 * chunk_coord(b as int) + lb);
    assert(z as int == 16 * chunk_coord(z as int) + lz);
    assert(c as int == 16 * chunk_coord(c as int) + lc);
}

/// The local coordinates of any world position address a voxel inside its chunk.
proof fn lemma_local_in_chunk(x: i32, y: i32, z: i32)
    ensures
        in_chunk(local_of(x as int), local_of(y as int), local_of(z as int)),
        0 <= local_index(x, y, z) < CHUNK_VOLUME,
{
}

/// `after` reads `material` at world coordinates `(x, y, z)` and reads as
/// `before` everywhere else.
pub open spec fn writes_voxel(
    before: GameWorld,
    after: GameWorld,
    x: i32,
    y: i32,
    z: i32,
    material: u8,
) -> bool {
    forall|a: i32, b: i32, c: i32| #[trigger]
        after.voxel_at(a, b, c) == if a == x && b == y && c == z {
            material
        } else {
            before.voxel_at(a, b, c)
        }
}

impl GameWorld {
    #[verifier::type_invariant]
    spec fn well_formed(self) -> bool {
        &&& forall|p: (i32, i32, i32)| #[trigger]
            self.chunks@.contains_key(p) ==> self.chunks@[p].wf()
        &&& ids_distinct(self.agents@)
    }

    /// The chunks of the world, by chunk position.
    pub closed spec fn chunk_map(&self) -> Map<(i32, i32, i32), VoxelChunk> {
        self.chunks@
    }

    /// The agents of the world, kept with no id repeated.
    pub closed spec fn agent_list(&self) -> Seq<GameAgent> {
        self.agents@
    }

    /// The agents of the world, by id.
    pub open spec fn agent_map(&self) -> Map<Seq<char>, GameAgent> {
        agents_by_id(self.agent_list())
    }

    /// The material at world coordinates: that of the chunk that holds the
    /// position, or 0 where no chunk has been made.
    pub open spec fn voxel_at(&self, x: i32, y: i32, z: i32) -> u8 {
        let p = chunk_of(x, y, z);
        if self.chunk_map().contains_key(p) {
            self.chunk_map()[p]@[local_index(x, y, z)]
        } else {
            0u8
        }
    }

    /// Create an empty world.
    pub fn new() -> (world: Self)
        ensures
            world.chunk_map() == Map::<(i32, i32, i32), VoxelChunk>::empty(),
            world.agent_list() == Seq::<GameAgent>::empty(),
            forall|x: i32, y: i32, z: i32| #[trigger] world.voxel_at(x, y, z) == 0u8,
    {
        GameWorld { chunks: BTreeMap::new(), agents: Vec::new() }
    }

    /// Position of the chunk that holds world coordinates `(x, y, z)`.
    pub fn chunk_pos(x: i32, y: i32, z: i32) -> (pos: (i32, i32, i32))
        ensures
            pos == chunk_of(x, y, z),
            16 * pos.0 <= x < 16 * pos.0 + 16,
            16 * pos.1 <= y < 16 * pos.1 + 16,
            16 * pos.2 <= z < 16 * pos.2 + 16,
    {
        (floor_chunk(x), floor_chunk(y), floor_chunk(z))
    }

    /// Place a voxel of the given material at world coordinates. The chunk
    /// that holds the position is made (empty) when there is none yet.
    pub fn place_voxel(&mut self, x: i32, y: i32, z: i32, material: u8)
        ensures
            final(self).chunk_map().dom() == old(self).chunk_map().dom().insert(chunk_of(x, y, z)),
            final(self).chunk_map().remove(chunk_of(x, y, z)) == old(self).chunk_map().remove(
                chunk_of(x, y, z),
            ),
            writes_voxel(*old(self), *final(self), x, y, z, material),
            final(self).agent_list() == old(self).agent_list(),
    {
        proof {
            use_type_invariant(&*self);
            lemma_local_in_chunk(x, y, z);
        }
        let cp = Self::chunk_pos(x, y, z);
        let mut chunks: BTreeMap<(i32, i32, i32), VoxelChunk> = BTreeMap::new();
        std::mem::swap(&mut chunks, &mut self.chunks);
        let mut chunk = match chunks.remove(&cp) {
            Some(c) => c,
            None => VoxelChunk::new(),
        };
        chunk.set(local_coord(x), local_coord(y), local_coord(z), material);
        chunks.insert(cp, chunk);
        self.chunks = chunks;
        proof {
            assert forall|a: i32, b: i32, c: i32| #[trigger]
                self.voxel_at(a, b, c) == if a == x && b == y && c == z {
                    material
                } else {
                    old(self).voxel_at(a, b, c)
                } by {
                lemma_local_in_chunk(a, b, c);
                if chunk_of(a, b, c) == cp && !(a == x && b == y && c == z) {
                    if local_index(a, b, c) == local_index(x, y, z) {
                        lemma_position_determined(x, y, z, a, b, c);
                    }
                }
            }
        }
    }

    /// Remove a voxel (set it to 0) at world coordinates. No chunk is made
    /// where there is none.
    pub fn remove_voxel(&mut self, x: i32, y: i32, z: i32)
        ensures
            final(self).chunk_map().dom() == old(self).chunk_map().dom(),
            final(self).chunk_map().remove(chunk_of(x, y, z)) == old(self).chunk_map().remove(
                chunk_of(x, y, z),
            ),
            writes_voxel(*old(self), *final(self), x, y, z, 0u8),
            final(self).agent_list() == old(self).agent_list(),
    {
        proof {
            use_type_invariant(&*self);
            lemma_local_in_chunk(x, y, z);
        }
        let cp = Self::chunk_pos(x, y, z);
        let mut chunks: BTreeMap<(i32, i32, i32), VoxelChunk> = BTreeMap::new();
        std::mem::swap(&mut chunks, &mut self.chunks);
        match chunks.remove(&cp) {
            Some(mut chunk) => {
                chunk.set(local_coord(x), local_coord(y), local_coord(z), 0);
                chunks.insert(cp, chunk);
            },
            None => {},
        }
        self.chunks = chunks;
        proof {
            assert(self.chunk_map().dom() =~= old(self).chunk_map().dom());
            assert forall|a: i32, b: i32, c: i32| #[trigger]
                self.voxel_at(a, b, c) == if a == x && b == y && c == z {
                    0u8
                } else {
                    old(self).voxel_at(a, b, c)
                } by {
                lemma_local_in_chunk(a, b, c);
                if chunk_of(a, b, c) == cp && !(a == x && b == y && c == z) {
                    if local_index(a, b, c) == local_index(x, y, z) {
                        lemma_position_determined(x, y, z, a, b, c);
                    }
                }
            }
        }
    }

    /// Get the material at world coordinates (0 if no chunk).
    pub fn get_voxel(&self, x: i32, y: i32, z: i32) -> (material: u8)
        ensures
            material == self.voxel_at(x, y, z),
    {
        proof {
            use_type_invariant(self);
            lemma_local_in_chunk(x, y, z);
        }
        let cp = Self::chunk_pos(x, y, z);
        match self.chunks.get(&cp) {
            Some(c) => c.get(local_coord(x), local_coord(y), local_coord(z)),
            None => 0,
        }
    }

    /// Serialize a chunk to raw bytes for network transport; `None` when
    /// the world has no chunk at that position.
    pub fn serialize_chunk(&self, chunk_pos: (i32, i32, i32)) -> (raw: Option<Vec<u8>>)
        ensures
            raw is Some <==> self.chunk_map().contains_key(chunk_pos),
            raw matches Some(bytes) ==> bytes@ == self.chunk_map()[chunk_pos]@ && bytes@.len()
                == CHUNK_VOLUME,
    {
        proof {
            use_type_invariant(self);
        }
        match self.chunks.get(&chunk_pos) {
            Some(c) => Some(vstd::slice::slice_to_vec(c.as_slice())),
            None => None,
        }
    }

    fn find_agent(&self, id: &str) -> (found: Option<usize>)
        ensures
            match found {
                Some(i) => i < self.agent_list().len() && self.agent_list()[i as int].id@ == id@,
                None => !has_id(self.agent_list(), id@),
            },
    {
        let n = self.agents.len();
        let mut i: usize = 0;
        while i < n
            invariant
                n == self.agents@.len(),
                i <= n,
                forall|j: int| 0 <= j < i ==> #[trigger] self.agents@[j].id@ != id@,
            decreases n - i,
        {
            if self.agents[i].id.as_str().eq(id) {
                return Some(i);
            }
            i = i + 1;
        }
        None
    }

    /// Put an agent into the world under its own id, in place of any agent
    /// that had that id.
    pub fn insert_agent(&mut self, agent: GameAgent)
        ensures
            final(self).agent_map() == old(self).agent_map().insert(agent.id@, agent),
            final(self).chunk_map() == old(self).chunk_map(),
    {
        proof {
            use_type_invariant(&*self);
        }
        let found = self.find_agent(agent.id.as_str());
        let ghost before = self.agents@;
        let mut agents: Vec<GameAgent> = Vec::new();
        std::mem::swap(&mut agents, &mut self.agents);
        match found {
            Some(i) => {
                proof {
                    lemma_agents_by_id_update(before, i as int, agent);
                }
                agents.set(i, agent);
            },
            None => {
                proof {
                    lemma_agents_by_id_push(before, agent);
                }
                agents.push(agent);
            },
        }
        self.agents = agents;
    }

    /// Add an agent to the world at the given position, with the appearance
    /// of a mid vibe and no room, in place of any agent with the same id.
    pub fn add_agent(&mut self, id: String, x: F64Bits, y: F64Bits, z: F64Bits)
        ensures
            final(self).agent_map() == old(self).agent_map().insert(
                id@,
                final(self).agent_map()[id@],
            ),
            final(self).agent_map()[id@].id == id,
            final(self).agent_map()[id@].position == (x, y, z),
            is_mid_vibe(final(self).agent_map()[id@].appearance),
            final(self).agent_map()[id@].room_id@ == Seq::<char>::empty(),
            final(self).chunk_map() == old(self).chunk_map(),
    {
        let agent = GameAgent {
            id: id.clone(),
            position: (x, y, z),
            appearance: AvatarAppearance::mid_vibe(),
            room_id: String::new(),
        };
        self.insert_agent(agent);
    }

    /// Move an existing agent to new coordinates; `false` when no agent has
    /// the id, and then nothing changes.
    pub fn move_agent(&mut self, id: &str, x: F64Bits, y: F64Bits, z: F64Bits) -> (moved: bool)
        ensures
            moved == old(self).agent_map().contains_key(id@),
            final(self).agent_map() == if moved {
                old(self).agent_map().insert(id@, moved_to(old(self).agent_map()[id@], x, y, z))
            } else {
                old(self).agent_map()
            },
            final(self).chunk_map() == old(self).chunk_map(),
    {
        proof {
            use_type_invariant(&*self);
        }
        match self.find_agent(id) {
            Some(i) => {
                let ghost before = self.agents@;
                proof {
                    lemma_agents_by_id_at(before, i as int);
                }
                let mut agents: Vec<GameAgent> = Vec::new();
                std::mem::swap(&mut agents, &mut self.agents);
                let mut agent = agents.remove(i);
                agent.position = (x, y, z);
                proof {
                    assert(agent == moved_to(before[i as int], x, y, z));
                    lemma_agents_by_id_update(before, i as int, agent);
                }
                agents.insert(i, agent);
                assert(agents@ =~= before.update(i as int, agent));
                self.agents = agents;
                true
            },
            None => false,
        }
    }

    /// The agent with the given id, if any.
    pub fn agent(&self, id: &str) -> (found: Option<&GameAgent>)
        ensures
            match found {
                Some(a) => self.agent_map().contains_key(id@) && *a == self.agent_map()[id@],
                None => !self.agent_map().contains_key(id@),
            },
    {
        proof {
            use_type_invariant(self);
        }
        match self.find_agent(id) {
            Some(i) => {
                proof {
                    lemma_agents_by_id_at(self.agents@, i as int);
                }
                Some(&self.agents[i])
            },
            None => None,
        }
    }

    /// Whether an agent has the given id.
    pub fn has_agent(&self, id: &str) -> (present: bool)
        ensures
            present == self.agent_map().contains_key(id@),
    {
        self.find_agent(id).is_some()
    }

    /// All agents of the world; no two of them share an id.
    pub fn agents(&self) -> (all: &[GameAgent])
        ensures
            all@ == self.agent_list(),
            ids_distinct(all@),
    {
        proof {
            use_type_invariant(self);
        }
        self.agents.as_slice()
    }

    /// All chunks of the world, by chunk position; each is well formed.
    pub fn chunks(&self) -> (all: &BTreeMap<(i32, i32, i32), VoxelChunk>)
        ensures
            all@ == self.chunk_map(),
            forall|p: (i32, i32, i32)| #[trigger] all@.contains_key(p) ==> all@[p].wf(),
    {
        proof {
            use_type_invariant(self);
        }
        &self.chunks
    }

    /// Number of chunks in the world.
    pub fn chunk_count(&self) -> (n: usize)
        ensures
            n == self.chunk_map().len(),
    {
        self.chunks.len()
    }

    /// Put a chunk into the world at a chunk position, in place of any chunk
    /// that was there.
    pub fn insert_chunk(&mut self, pos: (i32, i32, i32), chunk: VoxelChunk)
        requires
            chunk.wf(),
        ensures
            final(self).chunk_map() == old(self).chunk_map().insert(pos, chunk),
            final(self).agent_list() == old(self).agent_list(),
    {
        proof {
            use_type_invariant(&*self);
        }
        let mut chunks: BTreeMap<(i32, i32, i32), VoxelChunk> = BTreeMap::new();
        std::mem::swap(&mut chunks, &mut self.chunks);
        chunks.insert(pos, chunk);
        self.chunks = chunks;
    }
}

impl Clone for GameWorld {
    fn clone(&self) -> (copy: Self)
        ensures
            copy.chunk_map() == self.chunk_map(),
            copy.agent_list() == self.agent_list(),
    {
        proof {
            use_type_invariant(self);
        }
        GameWorld { chunks: self.chunks.clone(), agents: self.agents.clone() }
    }
}

impl Default for GameWorld {
    fn default() -> (world: Self)
        ensures
            world.chunk_map() == Map::<(i32, i32, i32), VoxelChunk>::empty(),
            world.agent_list() == Seq::<GameAgent>::empty(),
    {
        Self::new()
    }
}

} // verus!
