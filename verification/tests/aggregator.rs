use demoflat::{
    Angle, BuildingState, BuildingType, DemoHeader, FlatState, KillRecord, ParsedDemo,
    PlayerMeta, PlayerSnap, PlayerState, Snapshot, TEAM_BLUE, TEAM_RED,
};

fn header() -> DemoHeader {
    DemoHeader { map: String::from("cp_sample"), ticks: 10 }
}

fn player(x: u16, y: u16, health: u16, alive: bool) -> PlayerSnap {
    PlayerSnap {
        x,
        y,
        angle: Angle(40),
        health,
        alive,
        team: TEAM_BLUE,
        class: 1,
        charge: 0,
        info: None,
    }
}

fn building(x: u16, y: u16, health: u16) -> BuildingState {
    BuildingState {
        x,
        y,
        angle: Angle(7),
        health,
        team: TEAM_RED,
        ty: BuildingType::Dispenser,
        level: 1,
    }
}

fn snap(tick: u32, players: Vec<PlayerSnap>, buildings: Vec<BuildingState>) -> Snapshot {
    Snapshot { tick, has_world: true, players, buildings, kills: Vec::new() }
}

#[test]
fn player_buffers_stay_aligned_to_eight_bytes_per_tick() {
    let mut demo = ParsedDemo::new(header());
    for t in 1..=4u32 {
        demo.push_state(&snap(t, vec![player(1, 2, 100, true), player(3, 4, 80, true)], vec![]));
    }
    assert_eq!(demo.tick, 4);
    assert_eq!(demo.players.len(), 2);
    for buf in &demo.players {
        assert_eq!(buf.len(), 4 * 8);
    }
}

#[test]
fn late_player_slot_is_backfilled_with_zero_records() {
    let mut demo = ParsedDemo::new(header());
    demo.push_state(&snap(2, vec![player(1, 2, 100, true)], vec![]));
    demo.push_state(&snap(3, vec![player(1, 2, 100, true), player(9, 9, 50, true)], vec![]));
    assert_eq!(demo.players.len(), 2);
    assert_eq!(demo.players[0].len(), 3 * 8);
    assert_eq!(demo.players[1].len(), 3 * 8);
    // the late slot's first two tick records are all zero
    assert!(demo.players[1][0..16].iter().all(|&b| b == 0));
}

#[test]
fn snapshot_without_world_is_ignored() {
    let mut demo = ParsedDemo::new(header());
    demo.push_state(&snap(1, vec![player(1, 2, 100, true)], vec![]));
    let mut no_world = snap(5, vec![player(1, 2, 100, true)], vec![]);
    no_world.has_world = false;
    demo.push_state(&no_world);
    assert_eq!(demo.tick, 1);
    assert_eq!(demo.last_tick, 1);
    assert_eq!(demo.players[0].len(), 8);
}

#[test]
fn gap_filled_building_realigns_after_absence() {
    let b = building(10, 20, 150);
    let mut demo = ParsedDemo::new(header());
    // present for ticks 0, 1, 2
    for t in 1..=3u32 {
        demo.push_state(&snap(t, vec![], vec![b]));
    }
    // absent for tick 3
    demo.push_state(&snap(4, vec![], vec![]));
    // present again for tick 4
    demo.push_state(&snap(5, vec![], vec![b]));
    demo.finish();

    assert_eq!(demo.buildings.len(), 1);
    assert_eq!(demo.buildings[0].len(), 7 * 5);
    // the gap record for tick 3 is all zero
    assert!(demo.buildings[0][21..28].iter().all(|&x| x == 0));
    // tick 4's record sits right after the gap
    let rec = b.pack();
    assert_eq!(&demo.buildings[0][28..35], &rec[..]);
}

#[test]
fn dead_player_decodes_to_zero_health() {
    let mut demo = ParsedDemo::new(header());
    demo.push_state(&snap(1, vec![player(5, 6, 9999, false)], vec![]));
    let bytes: [u8; 8] = demo.players[0][0..8].try_into().unwrap();
    let decoded = PlayerState::unpack(bytes);
    assert_eq!(decoded.health, 0);
}

#[test]
fn alive_player_health_is_truncated_to_ten_bits() {
    let mut demo = ParsedDemo::new(header());
    demo.push_state(&snap(1, vec![player(5, 6, 1024 + 300, true)], vec![]));
    let bytes: [u8; 8] = demo.players[0][0..8].try_into().unwrap();
    let decoded = PlayerState::unpack(bytes);
    assert_eq!(decoded.health, 300);
}

#[test]
fn kill_log_keeps_order_and_values() {
    let mut demo = ParsedDemo::new(header());
    let mk = |tick: u32, attacker_id: u16, victim_id: u16, weapon: &str| KillRecord {
        tick,
        attacker_id,
        assister_id: 0xFFFF,
        victim_id,
        weapon: String::from(weapon),
    };
    let mut s1 = snap(6, vec![player(1, 2, 100, true)], vec![]);
    s1.kills = vec![mk(5, 1, 2, "scattergun"), mk(5, 2, 1, "rocket")];
    demo.push_state(&s1);
    let mut s2 = snap(13, vec![player(1, 2, 100, true)], vec![]);
    s2.kills = vec![mk(12, 3, 1, "knife")];
    demo.push_state(&s2);
    demo.finish();

    let flat = FlatState::new(demo);
    assert_eq!(demoflat::get_kill_ticks(&flat), vec![5, 5, 12]);
    assert_eq!(demoflat::get_attacker_ids(&flat), vec![1, 2, 3]);
    assert_eq!(demoflat::get_assister_ids(&flat), vec![0xFF, 0xFF, 0xFF]);
    assert_eq!(demoflat::get_victim_ids(&flat), vec![2, 1, 1]);
    assert_eq!(demoflat::get_weapon(&flat, 0), "scattergun");
    assert_eq!(demoflat::get_weapon(&flat, 1), "rocket");
    assert_eq!(demoflat::get_weapon(&flat, 2), "knife");
}

#[test]
fn identity_is_captured_once_and_kept() {
    let meta = PlayerMeta {
        name: String::from("alice"),
        user_id: 11,
        entity_id: 2,
        steam_id: String::from("STEAM_0:1:234"),
    };
    let mut p0 = player(1, 2, 100, true);
    p0.info = Some(meta);
    let mut demo = ParsedDemo::new(header());
    demo.push_state(&snap(1, vec![p0], vec![]));
    // a later sighting with different info is ignored
    let mut p0b = player(1, 2, 100, true);
    p0b.info = Some(PlayerMeta {
        name: String::from("impostor"),
        user_id: 99,
        entity_id: 9,
        steam_id: String::from("STEAM_0:0:999"),
    });
    demo.push_state(&snap(2, vec![p0b], vec![]));
    demo.finish();
    let flat = FlatState::new(demo);
    assert_eq!(demoflat::get_player_name(&flat, 0), "alice");
    assert_eq!(demoflat::get_player_user_id(&flat, 0), 11);
    assert_eq!(demoflat::get_player_entity_id(&flat, 0), 2);
    assert_eq!(demoflat::get_player_steam_id(&flat, 0), "STEAM_0:1:234");
}

#[test]
fn end_to_end_three_ticks_two_players_one_building() {
    let (min_x, max_x) = (-10000.0f32, 10000.0f32);
    let (min_y, max_y) = (-10000.0f32, 10000.0f32);
    let quant = |v: f32, min: f32, max: f32| -> u16 {
        (((v - min) / (max - min)) * u16::MAX as f32) as u16
    };
    let dequant = |code: u16, min: f32, max: f32| -> f32 {
        (code as f32 / u16::MAX as f32) * (max - min) + min
    };

    // player 1's true positions over the three ticks
    let p1_positions = [(100.0f32, -5000.0f32), (150.0, -4900.0), (200.0, -4800.0)];
    let b = building(quant(0.0, min_x, max_x), quant(0.0, min_y, max_y), 150);

    let mut demo = ParsedDemo::new(header());
    for t in 0..3usize {
        let p0 = player(quant(-25.0, min_x, max_x), quant(30.0, min_y, max_y), 100, true);
        let (x1, y1) = p1_positions[t];
        let p1 = player(quant(x1, min_x, max_x), quant(y1, min_y, max_y), 85, true);
        demo.push_state(&snap(t as u32 + 1, vec![p0, p1], vec![b]));
    }
    demo.finish();
    let flat = FlatState::new(demo);
    assert_eq!(flat.player_count, 2);
    assert_eq!(flat.building_count, 1);
    assert_eq!(flat.tick_count, 3);

    let data = demoflat::get_data(flat);
    assert_eq!(data.len(), 2 * 8 * 3 + 1 * 7 * 3);

    // slice out player 1's buffer and unpack each tick's record
    let buf = &data[24..48];
    for t in 0..3usize {
        let bytes: [u8; 8] = buf[t * 8..t * 8 + 8].try_into().unwrap();
        let rec = PlayerState::unpack(bytes);
        let (x1, y1) = p1_positions[t];
        assert!(f32::abs(dequant(rec.x, min_x, max_x) - x1) < 0.5);
        assert!(f32::abs(dequant(rec.y, min_y, max_y) - y1) < 0.5);
        assert_eq!(rec.health, 85);
        assert_eq!(rec.team, TEAM_BLUE);
        assert_eq!(rec.class, 1);
    }
}

#[test]
fn sparse_snapshots_repeat_records_for_skipped_ticks() {
    let mut demo = ParsedDemo::new(header());
    // the source advances three ticks at once: the record repeats per tick
    demo.push_state(&snap(3, vec![player(1, 2, 100, true)], vec![]));
    assert_eq!(demo.tick, 3);
    assert_eq!(demo.players[0].len(), 3 * 8);
    let first: [u8; 8] = demo.players[0][0..8].try_into().unwrap();
    let second: [u8; 8] = demo.players[0][8..16].try_into().unwrap();
    let third: [u8; 8] = demo.players[0][16..24].try_into().unwrap();
    assert_eq!(first, second);
    assert_eq!(second, third);
}

#[test]
fn max_building_count_tracks_peak_simultaneous_buildings() {
    let mut demo = ParsedDemo::new(header());
    demo.push_state(&snap(1, vec![], vec![building(1, 1, 10), building(2, 2, 20)]));
    demo.push_state(&snap(2, vec![], vec![building(1, 1, 10)]));
    assert_eq!(demo.max_building_count, 2);
    assert_eq!(demo.buildings.len(), 2);
    demo.finish();
    assert_eq!(demo.buildings[0].len(), 7 * 2);
    assert_eq!(demo.buildings[1].len(), 7 * 2);
}

#[test]
fn size_sums_player_buffer_bytes() {
    let mut demo = ParsedDemo::new(header());
    demo.push_state(&snap(2, vec![player(1, 2, 100, true), player(3, 4, 50, true)], vec![]));
    assert_eq!(demo.size(), 2 * 2 * 8);
}

#[test]
fn flat_map_name_comes_from_header() {
    let mut demo = ParsedDemo::new(header());
    demo.push_state(&snap(1, vec![player(1, 2, 100, true)], vec![]));
    demo.finish();
    let flat = FlatState::new(demo);
    assert_eq!(demoflat::get_map(&flat), "cp_sample");
}

#[test]
fn empty_demo_flattens_to_nothing() {
    let mut demo = ParsedDemo::new(header());
    demo.finish();
    let flat = FlatState::new(demo);
    assert_eq!(flat.player_count, 0);
    assert_eq!(flat.building_count, 0);
    assert_eq!(flat.tick_count, 0);
    assert_eq!(demoflat::get_kill_ticks(&flat), Vec::<u32>::new());
    assert_eq!(demoflat::get_data(flat), Vec::<u8>::new());
}
