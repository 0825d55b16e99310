use lau_protocol::{AvatarAppearance, F64Bits, GameWorld, LauBridge, LauMessage, CHUNK_SIZE};

/// The appearance that a new agent gets: that of a mid vibe (0.5).
fn mid_vibe_appearance() -> AvatarAppearance {
    let v = 0.5f64;
    AvatarAppearance {
        color: (F64Bits(v.to_bits()), F64Bits((0.8 - 0.4 * (v - 0.5).abs()).to_bits()), F64Bits((1.0 - v).to_bits())),
        scale: F64Bits((0.5 + v).to_bits()),
        glow: F64Bits(v.to_bits()),
        animation: String::new(),
        opacity: F64Bits(1.0f64.to_bits()),
    }
}

fn bits(x: f64, y: f64, z: f64) -> (F64Bits, F64Bits, F64Bits) {
    (F64Bits(x.to_bits()), F64Bits(y.to_bits()), F64Bits(z.to_bits()))
}

fn add(w: &mut GameWorld, id: &str, x: f64, y: f64, z: f64) {
    let (bx, by, bz) = bits(x, y, z);
    w.add_agent(id.to_string(), bx, by, bz);
}

#[test]
fn world_place_and_get() {
    let mut w = GameWorld::new();
    w.place_voxel(3, 7, 11, 99);
    assert_eq!(w.get_voxel(3, 7, 11), 99);
    assert_eq!(w.get_voxel(3, 7, 12), 0);
}

#[test]
fn world_remove_voxel() {
    let mut w = GameWorld::new();
    w.place_voxel(1, 2, 3, 55);
    assert_eq!(w.get_voxel(1, 2, 3), 55);
    w.remove_voxel(1, 2, 3);
    assert_eq!(w.get_voxel(1, 2, 3), 0);
}

#[test]
fn world_remove_nonexistent_is_noop() {
    let mut w = GameWorld::new();
    w.remove_voxel(100, 200, 300); // no chunk exists
    assert_eq!(w.chunk_count(), 0);
}

#[test]
fn world_negative_coords() {
    let mut w = GameWorld::new();
    w.place_voxel(-1, -1, -1, 77);
    assert_eq!(w.get_voxel(-1, -1, -1), 77);
}

#[test]
fn world_cross_chunk_boundary() {
    let mut w = GameWorld::new();
    w.place_voxel(15, 0, 0, 1); // chunk (0,0,0)
    w.place_voxel(16, 0, 0, 2); // chunk (1,0,0)
    assert_eq!(w.get_voxel(15, 0, 0), 1);
    assert_eq!(w.get_voxel(16, 0, 0), 2);
    assert_eq!(w.chunk_count(), 2);
}

#[test]
fn world_add_and_move_agent() {
    let mut w = GameWorld::new();
    add(&mut w, "a1", 1.0, 2.0, 3.0);
    assert!(w.has_agent("a1"));
    assert_eq!(w.agent("a1").unwrap().position, bits(1.0, 2.0, 3.0));

    let (x, y, z) = bits(4.0, 5.0, 6.0);
    let moved = w.move_agent("a1", x, y, z);
    assert!(moved);
    assert_eq!(w.agent("a1").unwrap().position, bits(4.0, 5.0, 6.0));
}

#[test]
fn world_move_nonexistent_agent() {
    let mut w = GameWorld::new();
    let (x, y, z) = bits(0.0, 0.0, 0.0);
    assert!(!w.move_agent("ghost", x, y, z));
}

#[test]
fn world_serialize_chunk() {
    let mut w = GameWorld::new();
    w.place_voxel(0, 0, 0, 42);
    let cp = GameWorld::chunk_pos(0, 0, 0);
    let data = w.serialize_chunk(cp).unwrap();
    assert_eq!(data.len(), CHUNK_SIZE * CHUNK_SIZE * CHUNK_SIZE);
    assert_eq!(data[0], 42);
}

#[test]
fn world_serialize_missing_chunk() {
    let w = GameWorld::new();
    assert!(w.serialize_chunk((99, 99, 99)).is_none());
}

#[test]
fn bridge_to_world_move() {
    let mut bridge = LauBridge::new();
    let mut world = GameWorld::new();
    add(&mut world, "hero", 0.0, 0.0, 0.0);

    bridge.port_in(LauMessage::Move {
        agent_id: "hero".into(),
        x: F64Bits(10.0f64.to_bits()),
        y: F64Bits(20.0f64.to_bits()),
        z: F64Bits(30.0f64.to_bits()),
        facing: F64Bits(45.0f64.to_bits()),
    });

    for msg in bridge.flush_incoming() {
        if let LauMessage::Move { agent_id, x, y, z, .. } = msg {
            world.move_agent(&agent_id, x, y, z);
        }
    }
    assert_eq!(world.agent("hero").unwrap().position, bits(10.0, 20.0, 30.0));
}

#[test]
fn chunk_positions_round_towards_negative_infinity() {
    assert_eq!(GameWorld::chunk_pos(0, 15, 16), (0, 0, 1));
    assert_eq!(GameWorld::chunk_pos(-1, -16, -17), (-1, -1, -2));
    assert_eq!(GameWorld::chunk_pos(i32::MIN, i32::MAX, -32), (-134217728, 134217727, -2));
}

#[test]
fn world_negative_coords_land_at_chunk_end() {
    let mut w = GameWorld::new();
    w.place_voxel(-1, -16, -17, 9);
    // x = -1 is local 15, y = -16 is local 0, z = -17 is local 15.
    let data = w.serialize_chunk((-1, -1, -2)).unwrap();
    assert_eq!(data[15 + 0 * 16 + 15 * 256], 9);
    assert_eq!(w.get_voxel(-1, -16, -17), 9);
    assert_eq!(w.get_voxel(15, -16, -17), 0);
}

#[test]
fn world_last_write_wins() {
    let mut w = GameWorld::new();
    w.place_voxel(5, 5, 5, 1);
    w.place_voxel(5, 5, 5, 2);
    w.place_voxel(5, 5, 6, 3);
    assert_eq!(w.get_voxel(5, 5, 5), 2);
    w.remove_voxel(5, 5, 5);
    assert_eq!(w.get_voxel(5, 5, 5), 0);
    assert_eq!(w.get_voxel(5, 5, 6), 3);
    // Removing keeps the chunk.
    assert_eq!(w.chunk_count(), 1);
}

#[test]
fn world_add_agent_twice_replaces() {
    let mut w = GameWorld::new();
    add(&mut w, "a", 1.0, 1.0, 1.0);
    add(&mut w, "b", 2.0, 2.0, 2.0);
    add(&mut w, "a", 3.0, 3.0, 3.0);
    assert_eq!(w.agents().len(), 2);
    let a = w.agent("a").unwrap();
    assert_eq!(a.id, "a");
    assert_eq!(a.position, bits(3.0, 3.0, 3.0));
    assert_eq!(a.room_id, "");
    assert_eq!(a.appearance, mid_vibe_appearance());
    assert_eq!(w.agent("b").unwrap().position, bits(2.0, 2.0, 2.0));
    assert!(w.agent("c").is_none());
    assert!(!w.has_agent("c"));
}

#[test]
fn world_move_keeps_other_fields() {
    let mut w = GameWorld::new();
    add(&mut w, "m", 0.0, 0.0, 0.0);
    add(&mut w, "n", 7.0, 7.0, 7.0);
    let (x, y, z) = bits(1.5, -2.5, 0.25);
    assert!(w.move_agent("m", x, y, z));
    let m = w.agent("m").unwrap();
    assert_eq!(m.id, "m");
    assert_eq!(m.appearance, mid_vibe_appearance());
    assert_eq!(w.agent("n").unwrap().position, bits(7.0, 7.0, 7.0));
}

#[test]
fn world_insert_chunk_and_clone() {
    let mut w = GameWorld::default();
    let mut c = lau_protocol::VoxelChunk::new();
    c.set(0, 1, 0, 4);
    w.insert_chunk((2, 3, 4), c);
    assert_eq!(w.get_voxel(32, 49, 64), 4);
    let copy = w.clone();
    assert_eq!(copy.get_voxel(32, 49, 64), 4);
    assert_eq!(copy.chunks().len(), 1);
}

#[test]
fn world_positions_compare_as_reals() {
    let mut w = GameWorld::new();
    add(&mut w, "z", 0.0, 1.0, 2.0);
    // -0.0 and 0.0 are the same coordinate.
    assert_eq!(w.agent("z").unwrap().position, bits(-0.0, 1.0, 2.0));
}

#[test]
fn mid_vibe_appearance_matches_its_f64_values() {
    assert_eq!(AvatarAppearance::mid_vibe(), mid_vibe_appearance());
    let a = AvatarAppearance::mid_vibe();
    assert_eq!(f64::from_bits(a.color.1 .0), 0.8);
    assert_eq!(f64::from_bits(a.scale.0), 1.0);
    assert_eq!(a.animation, "");
}
