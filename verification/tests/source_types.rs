use demoflat::{Angle, BuildingState, BuildingType, ProgressCounter, SparseVec};
use tf_demo_parser::demo::message::packetentities::EntityId;
use tf_demo_parser::demo::parser::analyser::Team;
use tf_demo_parser::demo::parser::gamestateanalyser::Building;
use tf_demo_parser::demo::data::game_state::BuildingClass;

fn sentry(level: u8, is_mini: bool, health: u16, team: Team) -> Building {
    let mut b = Building::new(EntityId::from(1u32), BuildingClass::Sentry);
    if let Building::Sentry(s) = &mut b {
        s.level = level;
        s.is_mini = is_mini;
        s.health = health;
        s.team = team;
    }
    b
}

fn teleporter(is_entrance: bool) -> Building {
    let mut b = Building::new(EntityId::from(2u32), BuildingClass::Teleporter);
    if let Building::Teleporter(t) = &mut b {
        t.is_entrance = is_entrance;
        t.level = 1;
        t.health = 120;
        t.team = Team::Red;
    }
    b
}

#[test]
fn building_types_follow_variant_and_subfields() {
    assert_eq!(
        BuildingType::from_building(&sentry(1, true, 100, Team::Blue)),
        BuildingType::MiniSentry
    );
    assert_eq!(
        BuildingType::from_building(&sentry(1, false, 100, Team::Blue)),
        BuildingType::Level1Sentry
    );
    assert_eq!(
        BuildingType::from_building(&sentry(2, false, 100, Team::Blue)),
        BuildingType::Level2Sentry
    );
    assert_eq!(
        BuildingType::from_building(&sentry(3, false, 100, Team::Blue)),
        BuildingType::Level3Sentry
    );
    assert_eq!(
        BuildingType::from_building(&sentry(0, false, 100, Team::Blue)),
        BuildingType::Unknown
    );
    assert_eq!(
        BuildingType::from_building(&teleporter(true)),
        BuildingType::TeleporterEntrance
    );
    assert_eq!(
        BuildingType::from_building(&teleporter(false)),
        BuildingType::TeleporterExit
    );
    assert_eq!(
        BuildingType::from_building(&Building::new(EntityId::from(3u32), BuildingClass::Dispenser)),
        BuildingType::Dispenser
    );
}

#[test]
fn building_state_reads_plain_fields_and_fits_the_record() {
    let b = sentry(2, false, 2000, Team::Red);
    let state = BuildingState::new(&b, 11, 22, Angle(33));
    assert_eq!(state.x, 11);
    assert_eq!(state.y, 22);
    assert_eq!(state.angle, Angle(33));
    // health is truncated to 10 bits before packing
    assert_eq!(state.health, 2000 & 1023);
    assert_eq!(state.team, demoflat::TEAM_RED);
    assert_eq!(state.ty, BuildingType::Level2Sentry);
    assert_eq!(state.level, 2);
    // and the round trip through the record keeps every field
    assert_eq!(BuildingState::unpack(state.pack()), state);
}

#[test]
fn progress_reports_each_percentage_at_most_once_and_never_lower() {
    let mut p = ProgressCounter::new(200);
    assert_eq!(p.update(1), None);
    assert_eq!(p.update(2), Some(1));
    assert_eq!(p.update(2), None);
    assert_eq!(p.update(3), None);
    assert_eq!(p.update(10), Some(5));
    // the source can move past the announced total
    assert_eq!(p.update(400), Some(200));
    assert_eq!(p.update(400), None);
}

#[test]
fn progress_over_zero_total_reports_nothing() {
    let mut p = ProgressCounter::new(0);
    assert_eq!(p.update(0), None);
    assert_eq!(p.update(100), None);
}

#[test]
fn sparse_vec_keeps_every_nth_element() {
    let mut v: SparseVec<u16, 4> = SparseVec::default();
    for i in 0..10usize {
        v.push_index(i, i as u16);
    }
    // kept: indexes 0, 4, 8
    assert_eq!(v.inner.len(), 3);
    assert_eq!(*v.index(0), 0);
    assert_eq!(*v.index(3), 0);
    assert_eq!(*v.index(4), 4);
    assert_eq!(*v.index(9), 8);
    assert_eq!(v.size(), 3 * core::mem::size_of::<u16>());
    v.resize(4);
    assert_eq!(v.inner.len(), 1);
    v.resize(20);
    assert_eq!(v.inner.len(), 5);
    assert_eq!(*v.index(0), 0);
}
