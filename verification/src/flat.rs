use vstd::prelude::*;

use crate::demo::{append_bytes, KillRecord, ParsedDemo, PlayerMeta};

verus! {

/// The buffers of `bufs`, concatenated in order.
pub open spec fn concat_bufs(bufs: Seq<Vec<u8>>) -> Seq<u8>
    decreases bufs.len(),
{
    if bufs.len() == 0 {
        Seq::empty()
    } else {
        concat_bufs(bufs.drop_last()) + bufs.last()@
    }
}

pub proof fn lemma_concat_bufs_step(bufs: Seq<Vec<u8>>, i: int)
    requires
        0 <= i < bufs.len(),
    ensures
        concat_bufs(bufs.take(i + 1)) == concat_bufs(bufs.take(i)) + bufs[i]@,
{
    assert(bufs.take(i + 1).drop_last() =~= bufs.take(i));
    assert(bufs.take(i + 1).last() == bufs[i]);
}

/// The finalized, flattened export of one demo: all per-slot buffers
/// concatenated (players first, then buildings), the derived counts, the
/// kill log split into parallel arrays, and the identity table.
#[derive(Debug)]
pub struct FlatState {
    pub player_count: usize,
    pub building_count: usize,
    pub tick_count: u32,
    pub map: String,
    pub kill_ticks: Vec<u32>,
    pub attackers: Vec<u8>,
    pub assisters: Vec<u8>,
    pub victims: Vec<u8>,
    pub weapons: Vec<String>,
    pub player_info: Vec<Option<PlayerMeta>>,
    pub data: Vec<u8>,
}

impl FlatState {
    /// Flattens a finished demo: concatenates every player buffer in slot
    /// order, then every building buffer in slot order, into one byte
    /// blob, and splits the kill log into parallel per-field arrays kept
    /// in log order.
    #[verifier::loop_isolation(false)]
    pub fn new(parsed: ParsedDemo) -> (r: FlatState)
        requires
            parsed.tick as int <= u32::MAX as int,
        ensures
            r.player_count == parsed.players@.len(),
            r.building_count == parsed.max_building_count,
            r.tick_count as int == parsed.tick as int,
            r.map == parsed.header.map,
            r.data@ == concat_bufs(parsed.players@) + concat_bufs(parsed.buildings@),
            r.kill_ticks@.len() == parsed.kills@.len(),
            r.attackers@.len() == parsed.kills@.len(),
            r.assisters@.len() == parsed.kills@.len(),
            r.victims@.len() == parsed.kills@.len(),
            r.weapons@.len() == parsed.kills@.len(),
            forall|k: int|
                0 <= k < parsed.kills@.len() ==> r.kill_ticks@[k] == (#[trigger] parsed.kills@[k]).tick,
            forall|k: int|
                0 <= k < parsed.kills@.len() ==> r.attackers@[k] == (#[trigger] parsed.kills@[k]).attacker_id as u8,
            forall|k: int|
                0 <= k < parsed.kills@.len() ==> r.assisters@[k] == (#[trigger] parsed.kills@[k]).assister_id as u8,
            forall|k: int|
                0 <= k < parsed.kills@.len() ==> r.victims@[k] == (#[trigger] parsed.kills@[k]).victim_id as u8,
            forall|k: int|
                0 <= k < parsed.kills@.len() ==> r.weapons@[k] == (#[trigger] parsed.kills@[k]).weapon,
            r.player_info@ == parsed.player_info@,
    {
        let ParsedDemo {
            last_tick: _,
            tick,
            players,
            buildings,
            kills,
            header,
            player_info,
            max_building_count,
        } = parsed;
        let player_count = players.len();
        let building_count = max_building_count;

        let mut data: Vec<u8> = Vec::new();
        let mut i: usize = 0;
        while i < players.len()
            invariant
                i <= players@.len(),
                data@ == concat_bufs(players@.take(i as int)),
            decreases players@.len() - i,
        {
            proof {
                lemma_concat_bufs_step(players@, i as int);
            }
            append_bytes(&mut data, players[i].as_slice());
            i += 1;
        }
        proof {
            assert(players@.take(players@.len() as int) =~= players@);
        }
        let mut i: usize = 0;
        while i < buildings.len()
            invariant
                i <= buildings@.len(),
                data@ == concat_bufs(players@) + concat_bufs(buildings@.take(i as int)),
            decreases buildings@.len() - i,
        {
            proof {
                lemma_concat_bufs_step(buildings@, i as int);
            }
            append_bytes(&mut data, buildings[i].as_slice());
            proof {
                assert(concat_bufs(players@) + concat_bufs(buildings@.take(i as int))
                    + buildings@[i as int]@ =~= concat_bufs(players@) + (concat_bufs(
                    buildings@.take(i as int),
                ) + buildings@[i as int]@));
            }
            i += 1;
        }
        proof {
            assert(buildings@.take(buildings@.len() as int) =~= buildings@);
        }

        let mut kill_ticks: Vec<u32> = Vec::new();
        let mut attackers: Vec<u8> = Vec::new();
        let mut assisters: Vec<u8> = Vec::new();
        let mut victims: Vec<u8> = Vec::new();
        let mut weapons: Vec<String> = Vec::new();
        let mut k: usize = 0;
        while k < kills.len()
            invariant
                k <= kills@.len(),
                kill_ticks@.len() == k,
                attackers@.len() == k,
                assisters@.len() == k,
                victims@.len() == k,
                weapons@.len() == k,
                forall|j: int| 0 <= j < k ==> kill_ticks@[j] == (#[trigger] kills@[j]).tick,
                forall|j: int|
                    0 <= j < k ==> attackers@[j] == (#[trigger] kills@[j]).attacker_id as u8,
                forall|j: int|
                    0 <= j < k ==> assisters@[j] == (#[trigger] kills@[j]).assister_id as u8,
                forall|j: int|
                    0 <= j < k ==> victims@[j] == (#[trigger] kills@[j]).victim_id as u8,
                forall|j: int| 0 <= j < k ==> weapons@[j] == (#[trigger] kills@[j]).weapon,
            decreases kills@.len() - k,
        {
            kill_ticks.push(kills[k].tick);
            attackers.push(kills[k].attacker_id as u8);
            assisters.push(kills[k].assister_id as u8);
            victims.push(kills[k].victim_id as u8);
            weapons.push(kills[k].weapon.clone());
            k += 1;
        }

        FlatState {
            player_count,
            building_count,
            tick_count: tick as u32,
            map: header.map,
            kill_ticks,
            attackers,
            assisters,
            victims,
            weapons,
            player_info,
            data,
        }
    }
}

/// Copies a byte vector, element for element.
fn copy_bytes(v: &Vec<u8>) -> (r: Vec<u8>)
    ensures
        r@ == v@,
{
    let mut r: Vec<u8> = Vec::new();
    let mut i: usize = 0;
    while i < v.len()
        invariant
            i <= v@.len(),
            r@ == v@.take(i as int),
        decreases v@.len() - i,
    {
        r.push(v[i]);
        proof {
            assert(v@.take(i as int) + seq![v@[i as int]] =~= v@.take(i as int + 1));
        }
        i += 1;
    }
    proof {
        assert(v@.take(v@.len() as int) =~= v@);
    }
    r
}

/// Hands the flattened byte blob to the caller.
pub fn get_data(state: FlatState) -> (r: Vec<u8>)
    ensures
        r@ == state.data@,
{
    state.data
}

/// The map name from the demo header.
pub fn get_map(state: &FlatState) -> (r: String)
    ensures
        r == state.map,
{
    state.map.clone()
}

/// The kill log's tick numbers, in log order.
pub fn get_kill_ticks(state: &FlatState) -> (r: Vec<u32>)
    ensures
        r@ == state.kill_ticks@,
{
    let mut r: Vec<u32> = Vec::new();
    let mut i: usize = 0;
    while i < state.kill_ticks.len()
        invariant
            i <= state.kill_ticks@.len(),
            r@ == state.kill_ticks@.take(i as int),
        decreases state.kill_ticks@.len() - i,
    {
        r.push(state.kill_ticks[i]);
        proof {
            assert(state.kill_ticks@.take(i as int) + seq![state.kill_ticks@[i as int]]
                =~= state.kill_ticks@.take(i as int + 1));
        }
        i += 1;
    }
    proof {
        assert(state.kill_ticks@.take(state.kill_ticks@.len() as int) =~= state.kill_ticks@);
    }
    r
}

/// The kill log's attacker slot ids, in log order.
pub fn get_attacker_ids(state: &FlatState) -> (r: Vec<u8>)
    ensures
        r@ == state.attackers@,
{
    copy_bytes(&state.attackers)
}

/// The kill log's assister slot ids, in log order.
pub fn get_assister_ids(state: &FlatState) -> (r: Vec<u8>)
    ensures
        r@ == state.assisters@,
{
    copy_bytes(&state.assisters)
}

/// The kill log's victim slot ids, in log order.
pub fn get_victim_ids(state: &FlatState) -> (r: Vec<u8>)
    ensures
        r@ == state.victims@,
{
    copy_bytes(&state.victims)
}

/// The weapon name of one kill; the index must be in range.
pub fn get_weapon(state: &FlatState, kill_id: usize) -> (r: String)
    requires
        kill_id < state.weapons@.len(),
    ensures
        r == state.weapons@[kill_id as int],
{
    state.weapons[kill_id].clone()
}

/// The display name of one player slot; the slot's identity must be set.
pub fn get_player_name(state: &FlatState, player_id: usize) -> (r: String)
    requires
        player_id < state.player_info@.len(),
        state.player_info@[player_id as int] is Some,
    ensures
        r == state.player_info@[player_id as int].unwrap().name,
{
    let m = state.player_info[player_id].as_ref().unwrap();
    m.name.clone()
}

/// The entity id of one player slot; the slot's identity must be set.
pub fn get_player_entity_id(state: &FlatState, player_id: usize) -> (r: u32)
    requires
        player_id < state.player_info@.len(),
        state.player_info@[player_id as int] is Some,
    ensures
        r == state.player_info@[player_id as int].unwrap().entity_id,
{
    let m = state.player_info[player_id].as_ref().unwrap();
    m.entity_id
}

/// The user id of one player slot; the slot's identity must be set.
pub fn get_player_user_id(state: &FlatState, player_id: usize) -> (r: u16)
    requires
        player_id < state.player_info@.len(),
        state.player_info@[player_id as int] is Some,
    ensures
        r == state.player_info@[player_id as int].unwrap().user_id,
{
    let m = state.player_info[player_id].as_ref().unwrap();
    m.user_id
}

/// The platform id string of one player slot; the slot's identity must be set.
pub fn get_player_steam_id(state: &FlatState, player_id: usize) -> (r: String)
    requires
        player_id < state.player_info@.len(),
        state.player_info@[player_id as int] is Some,
    ensures
        r == state.player_info@[player_id as int].unwrap().steam_id,
{
    let m = state.player_info[player_id].as_ref().unwrap();
    m.steam_id.clone()
}


/// Concatenating `n` buffers of one uniform length `m` gives `n * m`
/// bytes: with every player buffer at 8 bytes per tick and every building
/// buffer at 7, the flattened export's length is the per-category record
/// size times slot count times tick count.
pub proof fn lemma_concat_uniform(bufs: Seq<Vec<u8>>, m: int)
    requires
        forall|i: int| 0 <= i < bufs.len() ==> (#[trigger] bufs[i])@.len() == m,
    ensures
        concat_bufs(bufs).len() == bufs.len() * m,
    decreases bufs.len(),
{
    if bufs.len() > 0 {
        lemma_concat_uniform(bufs.drop_last(), m);
        assert((bufs.len() - 1) * m + m == bufs.len() * m) by (nonlinear_arith)
            requires
                bufs.len() >= 1,
        ;
    }
}

} // verus!
