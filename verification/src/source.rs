use vstd::prelude::*;

use crate::records::{Angle, BuildingState, BuildingType, TEAM_BLUE, TEAM_RED};
use tf_demo_parser::demo::parser::gamestateanalyser::Building;

verus! {

/// Declares tf_demo_parser's `Building` so it can cross the library's
/// signatures; values of it are opaque here and only `building_facts`
/// reads them.
#[verifier::external_type_specification]
#[verifier::external_body]
pub struct ExBuilding(Building);

/// Which variant a source building is.
#[derive(Debug, Clone, Copy, PartialEq, Eq, Structural)]
pub enum BuildingKind {
    Sentry,
    Dispenser,
    Teleporter,
    Other,
}

/// The plain values the encoder reads out of one source building: its
/// variant, upgrade level, health, team code, and the variant sub-fields
/// that pick the building type.
#[derive(Debug, Clone, Copy, PartialEq, Eq, Structural)]
pub struct BuildingFacts {
    pub kind: BuildingKind,
    pub level: u8,
    pub health: u16,
    pub team: u8,
    pub is_mini: bool,
    pub is_entrance: bool,
}

/// Relies on tf_demo_parser's `Building` enum: tells its three variants
/// apart and moves their plain sub-fields out, one arm each. Nothing can
/// be promised of the result, since the building is opaque here; the
/// callers' verified logic takes the returned facts as they come.
#[verifier::external_body]
fn building_facts(b: &Building) -> BuildingFacts {
    match b {
        Building::Sentry(s) => BuildingFacts { kind: BuildingKind::Sentry, level: s.level, health: s.health, team: s.team as u8, is_mini: s.is_mini, is_entrance: false },
        Building::Dispenser(d) => BuildingFacts { kind: BuildingKind::Dispenser, level: d.level, health: d.health, team: d.team as u8, is_mini: false, is_entrance: false },
        Building::Teleporter(t) => BuildingFacts { kind: BuildingKind::Teleporter, level: t.level, health: t.health, team: t.team as u8, is_mini: false, is_entrance: t.is_entrance },
        _ => BuildingFacts { kind: BuildingKind::Other, level: 0, health: 0, team: 0, is_mini: false, is_entrance: false },
    }
}

/// The building type that a set of building facts picks: a mini sentry
/// before its level, sentries by level 1 to 3, teleporters by direction,
/// anything unrecognized as `Unknown`.
pub open spec fn type_from_facts(f: BuildingFacts) -> BuildingType {
    match f.kind {
        BuildingKind::Sentry => if f.is_mini {
            BuildingType::MiniSentry
        } else if f.level == 1 {
            BuildingType::Level1Sentry
        } else if f.level == 2 {
            BuildingType::Level2Sentry
        } else if f.level == 3 {
            BuildingType::Level3Sentry
        } else {
            BuildingType::Unknown
        },
        BuildingKind::Dispenser => BuildingType::Dispenser,
        BuildingKind::Teleporter => if f.is_entrance {
            BuildingType::TeleporterEntrance
        } else {
            BuildingType::TeleporterExit
        },
        BuildingKind::Other => BuildingType::Unknown,
    }
}

impl BuildingType {
    /// The building type the given facts pick.
    pub fn from_facts(f: &BuildingFacts) -> (r: BuildingType)
        ensures
            r == type_from_facts(*f),
    {
        match f.kind {
            BuildingKind::Sentry => if f.is_mini {
                BuildingType::MiniSentry
            } else if f.level == 1 {
                BuildingType::Level1Sentry
            } else if f.level == 2 {
                BuildingType::Level2Sentry
            } else if f.level == 3 {
                BuildingType::Level3Sentry
            } else {
                BuildingType::Unknown
            },
            BuildingKind::Dispenser => BuildingType::Dispenser,
            BuildingKind::Teleporter => if f.is_entrance {
                BuildingType::TeleporterEntrance
            } else {
                BuildingType::TeleporterExit
            },
            BuildingKind::Other => BuildingType::Unknown,
        }
    }

    /// Derives the building type of a source building: reads its variant
    /// and sub-fields through `building_facts` and classifies them with
    /// `from_facts`, whose contract pins the result for every fact set.
    pub fn from_building(building: &Building) -> BuildingType {
        let f = building_facts(building);
        BuildingType::from_facts(&f)
    }
}

/// The building state a set of facts and quantized codes build: health
/// truncated to 10 bits, the level to 2 bits, the team normalized to the
/// two sides the record's team bit can hold.
pub open spec fn state_from_facts(f: BuildingFacts, x: u16, y: u16, angle: Angle) -> BuildingState {
    BuildingState {
        x,
        y,
        angle,
        health: f.health & 1023,
        team: if f.team == TEAM_BLUE {
            TEAM_BLUE
        } else {
            TEAM_RED
        },
        ty: type_from_facts(f),
        level: f.level & 3,
    }
}

impl BuildingState {
    /// Builds a valid building record state from facts and quantized codes.
    pub fn from_facts(f: &BuildingFacts, x: u16, y: u16, angle: Angle) -> (r: BuildingState)
        ensures
            r == state_from_facts(*f, x, y, angle),
            r.valid(),
    {
        let h: u16 = f.health;
        let lv: u8 = f.level;
        assert((h & 1023) < 1024) by (bit_vector);
        assert((lv & 3) < 4) by (bit_vector);
        BuildingState {
            x,
            y,
            angle,
            health: h & 1023,
            team: if f.team == TEAM_BLUE {
                TEAM_BLUE
            } else {
                TEAM_RED
            },
            ty: BuildingType::from_facts(f),
            level: lv & 3,
        }
    }

    /// Builds the record state of a source building from the building
    /// itself and the already-quantized position and angle codes; the
    /// result always fits the record's bit widths.
    pub fn new(building: &Building, x: u16, y: u16, angle: Angle) -> (r: BuildingState)
        ensures
            r.valid(),
    {
        let f = building_facts(building);
        BuildingState::from_facts(&f, x, y, angle)
    }
}

} // verus!
