//! Tick-stream encoder for game replay playback: quantized per-tick player
//! and building records, aggregated into per-slot byte buffers that stay
//! aligned to a single tick axis, then flattened into one transferable blob.

pub mod demo;
pub mod flat;
pub mod progress;
pub mod records;
pub mod source;
pub mod sparse;

pub use demo::{DemoHeader, KillRecord, ParsedDemo, PlayerMeta, PlayerSnap, Snapshot};
pub use flat::{FlatState, get_assister_ids, get_attacker_ids, get_data, get_kill_ticks, get_map, get_player_entity_id, get_player_name, get_player_steam_id, get_player_user_id, get_victim_ids, get_weapon};
pub use records::{Angle, BuildingState, BuildingType, PlayerState, TEAM_BLUE, TEAM_RED};
pub use progress::ProgressCounter;
pub use source::{BuildingFacts, BuildingKind};
pub use sparse::SparseVec;
