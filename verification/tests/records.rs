use demoflat::{Angle, BuildingState, BuildingType, PlayerState};
use tf_demo_parser::demo::parser::analyser::{Class, Team};

fn pack_f32(val: f32, min: f32, max: f32) -> u16 {
    let ratio = (val - min) / (max - min);
    (ratio * u16::MAX as f32) as u16
}

fn unpack_f32(val: u16, min: f32, max: f32) -> f32 {
    let ratio = val as f32 / (u16::MAX as f32);
    ratio * (max - min) + min
}

fn angle_code(val: f32) -> u8 {
    let ratio = val.rem_euclid(360.0) / 360.0;
    (ratio * u8::MAX as f32) as u8
}

#[test]
fn test_player_packing() {
    let (min_x, max_x) = (-10000.0, 10000.0);
    let (min_y, max_y) = (-10000.0, 10000.0);

    let input = PlayerState {
        x: pack_f32(100.0, min_x, max_x),
        y: pack_f32(-5000.0, min_y, max_y),
        angle: Angle(angle_code(213.0)),
        health: 250,
        team: Team::Blue as u8,
        class: Class::Demoman as u8,
        charge: 7,
    };

    let bytes = input.pack();

    let unpacked = PlayerState::unpack(bytes);
    assert_eq!(input.angle, unpacked.angle);
    assert_eq!(input.health, unpacked.health);
    assert_eq!(input.class, unpacked.class);
    assert_eq!(input.team, unpacked.team);
    assert_eq!(input.charge, unpacked.charge);

    assert!(f32::abs(100.0 - unpack_f32(unpacked.x, min_x, max_x)) < 0.5);
    assert!(f32::abs(-5000.0 - unpack_f32(unpacked.y, min_y, max_y)) < 0.5);
}

#[test]
fn test_building_packing() {
    let (min_x, max_x) = (-10000.0, 10000.0);
    let (min_y, max_y) = (-10000.0, 10000.0);

    let input = BuildingState {
        x: pack_f32(100.0, min_x, max_x),
        y: pack_f32(-5000.0, min_y, max_y),
        angle: Angle(angle_code(213.0)),
        health: 250,
        team: Team::Blue as u8,
        level: 3,
        ty: BuildingType::Level1Sentry,
    };

    let bytes = input.pack();

    let unpacked = BuildingState::unpack(bytes);
    assert_eq!(input.angle, unpacked.angle);
    assert_eq!(input.health, unpacked.health);
    assert_eq!(input.ty, unpacked.ty);
    assert_eq!(input.team, unpacked.team);
    assert_eq!(input.level, unpacked.level);

    assert!(f32::abs(100.0 - unpack_f32(unpacked.x, min_x, max_x)) < 0.5);
    assert!(f32::abs(-5000.0 - unpack_f32(unpacked.y, min_y, max_y)) < 0.5);
}

#[test]
fn player_record_layout_is_little_endian() {
    let input = PlayerState {
        x: 0x0201,
        y: 0x0403,
        angle: Angle(9),
        health: 513,
        team: 3,
        class: 4,
        charge: 255,
    };
    let bytes = input.pack();
    // word = team << 14 | class << 10 | health = 0xC000 | 0x1000 | 0x0201
    assert_eq!(bytes, [0x01, 0x02, 0x03, 0x04, 0x01, 0xD2, 9, 255]);
}

#[test]
fn building_record_layout_is_little_endian() {
    let input = BuildingState {
        x: 0x0201,
        y: 0x0403,
        angle: Angle(9),
        health: 513,
        team: demoflat::TEAM_RED,
        ty: BuildingType::MiniSentry,
        level: 2,
    };
    let bytes = input.pack();
    // word = level << 14 | red bit << 13 | type << 10 | health
    //      = 0x8000 | 0x2000 | 0x1800 | 0x0201
    assert_eq!(bytes, [0x01, 0x02, 0x03, 0x04, 0x01, 0xBA, 9]);
}

#[test]
fn record_round_trips_are_exact_for_every_small_field() {
    for team in 0..4u8 {
        for class in 0..16u8 {
            let s = PlayerState {
                x: 65535,
                y: 0,
                angle: Angle(255),
                health: 1023,
                team,
                class,
                charge: 128,
            };
            assert_eq!(PlayerState::unpack(s.pack()), s);
        }
    }
    for level in 0..4u8 {
        for code in 0..8u8 {
            let s = BuildingState {
                x: 1,
                y: 2,
                angle: Angle(3),
                health: 4,
                team: demoflat::TEAM_BLUE,
                ty: BuildingType::new(code),
                level,
            };
            assert_eq!(BuildingState::unpack(s.pack()), s);
        }
    }
}

#[test]
fn building_type_codes_round_trip() {
    for code in 0..8u8 {
        let t = BuildingType::new(code);
        assert_eq!(t.code(), code);
        assert_eq!(BuildingType::new(t.code()), t);
    }
    // out-of-range codes read as Unknown
    assert_eq!(BuildingType::new(42), BuildingType::Unknown);
    assert_eq!(BuildingType::default(), BuildingType::Unknown);
}
