use vstd::pervasive::VecAdditionalExecFns;
use vstd::prelude::*;

use crate::records::{Angle, BuildingState, PlayerState};

verus! {

/// One kill event as delivered by the tick source: the demo tick it
/// happened on, the slot ids of the players involved (the assister id is a
/// sentinel when there was none), and the weapon name.
#[derive(Debug, Clone)]
pub struct KillRecord {
    pub tick: u32,
    pub attacker_id: u16,
    pub assister_id: u16,
    pub victim_id: u16,
    pub weapon: String,
}

impl KillRecord {
    /// An exact copy; unlike a derived `Clone`, its contract pins the result.
    pub fn duplicate(&self) -> (r: KillRecord)
        ensures
            r == *self,
    {
        KillRecord {
            tick: self.tick,
            attacker_id: self.attacker_id,
            assister_id: self.assister_id,
            victim_id: self.victim_id,
            weapon: self.weapon.clone(),
        }
    }
}

/// Identity info for one player slot, captured once on first sighting.
#[derive(Debug, Clone)]
pub struct PlayerMeta {
    pub name: String,
    pub user_id: u16,
    pub entity_id: u32,
    pub steam_id: String,
}

impl PlayerMeta {
    /// An exact copy; unlike a derived `Clone`, its contract pins the result.
    pub fn duplicate(&self) -> (r: PlayerMeta)
        ensures
            r == *self,
    {
        PlayerMeta {
            name: self.name.clone(),
            user_id: self.user_id,
            entity_id: self.entity_id,
            steam_id: self.steam_id.clone(),
        }
    }
}

/// What the encoder reads from the demo header: the map name and the
/// total tick count announced there.
#[derive(Debug, Clone)]
pub struct DemoHeader {
    pub map: String,
    pub ticks: u32,
}

/// One player's slice of a snapshot, with positions and angle already
/// quantized to their record widths. `health` is the raw value from the
/// source; the encoder truncates it to 10 bits and forces it to 0 when
/// `alive` is false.
#[derive(Debug, Clone)]
pub struct PlayerSnap {
    pub x: u16,
    pub y: u16,
    pub angle: Angle,
    pub health: u16,
    pub alive: bool,
    pub team: u8,
    pub class: u8,
    pub charge: u8,
    pub info: Option<PlayerMeta>,
}

impl PlayerSnap {
    /// The team and class codes fit their record bit widths.
    pub open spec fn valid(self) -> bool {
        self.team < 4 && self.class < 16
    }

    /// The record this snapshot entry encodes to: health truncated to 10
    /// bits, and forced to 0 when the player is not alive.
    pub open spec fn record_state(self) -> PlayerState {
        PlayerState {
            x: self.x,
            y: self.y,
            angle: self.angle,
            health: if self.alive {
                self.health & 1023
            } else {
                0
            },
            team: self.team,
            class: self.class,
            charge: self.charge,
        }
    }

    /// Builds the player record for this tick, applying the dead-player
    /// health policy and the 10-bit health truncation.
    pub fn to_record(&self) -> (r: PlayerState)
        requires
            self.valid(),
        ensures
            r == self.record_state(),
            r.valid(),
    {
        let raw: u16 = self.health;
        assert((raw & 1023) < 1024) by (bit_vector);
        let h: u16 = if self.alive {
            raw & 1023
        } else {
            0
        };
        PlayerState {
            x: self.x,
            y: self.y,
            angle: self.angle,
            health: h,
            team: self.team,
            class: self.class,
            charge: self.charge,
        }
    }
}

/// One per-tick snapshot handed to the aggregator: the demo tick it
/// describes, whether world bounds were present (without them the tick is
/// ignored), the player list in slot order, the building states in the
/// enumeration order of the source's keyed collection, and the kill
/// events this snapshot carries.
#[derive(Debug, Clone)]
pub struct Snapshot {
    pub tick: u32,
    pub has_world: bool,
    pub players: Vec<PlayerSnap>,
    pub buildings: Vec<BuildingState>,
    pub kills: Vec<KillRecord>,
}

impl Snapshot {
    /// Every entry fits the record bit widths.
    pub open spec fn valid(self) -> bool {
        &&& forall|i: int|
            0 <= i < self.players@.len() ==> (#[trigger] self.players@[i]).valid()
        &&& forall|i: int|
            0 <= i < self.buildings@.len() ==> (#[trigger] self.buildings@[i]).valid()
    }
}

/// A run of `n` zero bytes.
pub open spec fn zeros(n: nat) -> Seq<u8> {
    Seq::new(n, |i: int| 0u8)
}

/// `rec` repeated `n` times, back to back.
pub open spec fn repeated(rec: Seq<u8>, n: nat) -> Seq<u8>
    decreases n,
{
    if n == 0 {
        Seq::empty()
    } else {
        repeated(rec, (n - 1) as nat) + rec
    }
}

pub proof fn lemma_repeated_len(rec: Seq<u8>, n: nat)
    ensures
        repeated(rec, n).len() == n * rec.len(),
    decreases n,
{
    if n > 0 {
        lemma_repeated_len(rec, (n - 1) as nat);
        assert(repeated(rec, n).len() == (n - 1) * rec.len() + rec.len());
        assert((n - 1) * rec.len() + rec.len() == n * rec.len()) by (nonlinear_arith)
            requires
                n >= 1,
        ;
    } else {
        assert(repeated(rec, n).len() == 0);
    }
}

/// `b` padded with zero bytes up to length `m`.
pub open spec fn pad_to(b: Seq<u8>, m: int) -> Seq<u8>
    recommends
        b.len() <= m,
{
    b + zeros((m - b.len()) as nat)
}

/// Pushes zero bytes until `buf` is `target` bytes long; a longer buffer
/// is left as it is (padding never truncates).
fn pad_zeros(buf: &mut Vec<u8>, target: usize)
    ensures
        old(buf)@.len() <= target ==> final(buf)@ == pad_to(old(buf)@, target as int),
        old(buf)@.len() >= target ==> final(buf)@ == old(buf)@,
{
    while buf.len() < target
        invariant
            old(buf)@.len() <= buf@.len(),
            buf@.len() <= target || buf@ == old(buf)@,
            buf@ == old(buf)@ + zeros((buf@.len() - old(buf)@.len()) as nat),
        decreases target - buf@.len(),
    {
        let ghost k = (buf@.len() - old(buf)@.len()) as nat;
        buf.push(0);
        proof {
            assert(old(buf)@ + zeros(k) + seq![0u8] =~= old(buf)@ + zeros(k + 1));
        }
    }
    proof {
        if old(buf)@.len() <= target {
            assert(final(buf)@ =~= pad_to(old(buf)@, target as int));
        } else {
            assert(final(buf)@ =~= old(buf)@);
        }
    }
}

/// Appends `rec` to the end of `buf`.
pub(crate) fn append_bytes(buf: &mut Vec<u8>, rec: &[u8])
    ensures
        final(buf)@ == old(buf)@ + rec@,
{
    let mut i: usize = 0;
    while i < rec.len()
        invariant
            i <= rec@.len(),
            buf@ == old(buf)@ + rec@.take(i as int),
        decreases rec@.len() - i,
    {
        let ghost k = i as int;
        buf.push(rec[i]);
        proof {
            assert(old(buf)@ + rec@.take(k) + seq![rec@[k]] =~= old(buf)@ + rec@.take(k + 1));
        }
        i += 1;
    }
    proof {
        assert(rec@.take(rec@.len() as int) =~= rec@);
    }
}

/// Appends `rec` to buffer `i`, leaving every other buffer as it is.
fn append_record(bufs: &mut Vec<Vec<u8>>, i: usize, rec: &[u8])
    requires
        i < old(bufs)@.len(),
    ensures
        final(bufs)@.len() == old(bufs)@.len(),
        final(bufs)@[i as int]@ == old(bufs)@[i as int]@ + rec@,
        forall|j: int|
            0 <= j < old(bufs)@.len() && j != i ==> final(bufs)@[j] == old(bufs)@[j],
{
    let mut buf: Vec<u8> = Vec::new();
    bufs.set_and_swap(i, &mut buf);
    append_bytes(&mut buf, rec);
    bufs.set_and_swap(i, &mut buf);
}

/// Zero-pads buffer `i` up to `target` bytes, leaving every other buffer
/// as it is; a longer buffer is left untouched.
fn pad_slot(bufs: &mut Vec<Vec<u8>>, i: usize, target: usize)
    requires
        i < old(bufs)@.len(),
    ensures
        final(bufs)@.len() == old(bufs)@.len(),
        old(bufs)@[i as int]@.len() <= target ==> final(bufs)@[i as int]@ == pad_to(
            old(bufs)@[i as int]@,
            target as int,
        ),
        old(bufs)@[i as int]@.len() >= target ==> final(bufs)@[i as int]@ == old(bufs)@[i as int]@,
        forall|j: int|
            0 <= j < old(bufs)@.len() && j != i ==> final(bufs)@[j] == old(bufs)@[j],
{
    let mut buf: Vec<u8> = Vec::new();
    bufs.set_and_swap(i, &mut buf);
    pad_zeros(&mut buf, target);
    bufs.set_and_swap(i, &mut buf);
}

/// The whole state the aggregator builds over one demo: one growable byte
/// buffer per player slot and per building slot, the kill log, the
/// identity table, the demo header, and the processed-tick cursor.
#[derive(Debug)]
pub struct ParsedDemo {
    pub last_tick: u32,
    pub tick: usize,
    pub players: Vec<Vec<u8>>,
    pub buildings: Vec<Vec<u8>>,
    pub kills: Vec<KillRecord>,
    pub header: DemoHeader,
    pub player_info: Vec<Option<PlayerMeta>>,
    pub max_building_count: usize,
}

/// The buffer player slot `i` had before a snapshot, or the zero back-fill
/// a slot created by that snapshot starts from.
pub open spec fn player_base(pre: ParsedDemo, i: int) -> Seq<u8> {
    if i < pre.players@.len() {
        pre.players@[i]@
    } else {
        zeros((8 * pre.tick as int) as nat)
    }
}

/// The buffer building slot `i` had before a snapshot, or the empty buffer
/// a slot created by that snapshot starts from.
pub open spec fn building_base(pre: ParsedDemo, i: int) -> Seq<u8> {
    if i < pre.buildings@.len() {
        pre.buildings@[i]@
    } else {
        Seq::empty()
    }
}

impl ParsedDemo {
    /// Well-formedness: the processed-tick count mirrors the last demo tick
    /// taken, every player buffer holds whole 8-byte records for at most
    /// that many ticks, every building buffer whole 7-byte records for at
    /// most that many ticks, the building slot count is the maximum
    /// simultaneous building count seen, and the identity table has one
    /// entry per player slot.
    pub open spec fn wf(self) -> bool {
        &&& self.tick as int == self.last_tick as int
        &&& 8 * self.tick as int <= usize::MAX as int
        &&& forall|i: int|
            0 <= i < self.players@.len() ==> (#[trigger] self.players@[i])@.len() % 8 == 0
        &&& forall|i: int|
            0 <= i < self.players@.len() ==> (#[trigger] self.players@[i])@.len() <= 8
                * self.tick as int
        &&& forall|i: int|
            0 <= i < self.buildings@.len() ==> (#[trigger] self.buildings@[i])@.len() % 7 == 0
        &&& forall|i: int|
            0 <= i < self.buildings@.len() ==> (#[trigger] self.buildings@[i])@.len() <= 7
                * self.tick as int
        &&& self.buildings@.len() == self.max_building_count as int
        &&& self.player_info@.len() == self.players@.len()
    }

    /// A fresh aggregator for one demo: everything empty, no tick processed.
    pub fn new(header: DemoHeader) -> (r: ParsedDemo)
        ensures
            r.wf(),
            r.last_tick == 0u32,
            r.tick == 0usize,
            r.players@ =~= Seq::<Vec<u8>>::empty(),
            r.buildings@ =~= Seq::<Vec<u8>>::empty(),
            r.kills@ =~= Seq::<KillRecord>::empty(),
            r.player_info@ =~= Seq::<Option<PlayerMeta>>::empty(),
            r.max_building_count == 0usize,
            r.header == header,
    {
        ParsedDemo {
            last_tick: 0,
            tick: 0,
            players: Vec::new(),
            buildings: Vec::new(),
            kills: Vec::new(),
            header,
            player_info: Vec::new(),
            max_building_count: 0,
        }
    }

    /// Appends copies of the given kill events to the kill log, in the
    /// order delivered; nothing else changes.
    fn record_kills(&mut self, kills: &Vec<KillRecord>)
        ensures
            final(self).kills@ == old(self).kills@ + kills@,
            final(self).last_tick == old(self).last_tick,
            final(self).tick == old(self).tick,
            final(self).players == old(self).players,
            final(self).buildings == old(self).buildings,
            final(self).header == old(self).header,
            final(self).player_info == old(self).player_info,
            final(self).max_building_count == old(self).max_building_count,
    {
        let mut k: usize = 0;
        while k < kills.len()
            invariant
                k <= kills@.len(),
                self.kills@ == old(self).kills@ + kills@.take(k as int),
                self.last_tick == old(self).last_tick,
                self.tick == old(self).tick,
                self.players == old(self).players,
                self.buildings == old(self).buildings,
                self.header == old(self).header,
                self.player_info == old(self).player_info,
                self.max_building_count == old(self).max_building_count,
            decreases kills@.len() - k,
        {
            let ghost j = k as int;
            let kr = kills[k].duplicate();
            self.kills.push(kr);
            proof {
                assert(old(self).kills@ + kills@.take(j) + seq![kills@[j]] =~= old(self).kills@
                    + kills@.take(j + 1));
            }
            k += 1;
        }
        proof {
            assert(kills@.take(kills@.len() as int) =~= kills@);
        }
    }
}


impl ParsedDemo {
    /// Creates buffers (and identity-table entries) for player slots up to
    /// `n`, back-filling each new buffer with zero records for every tick
    /// already processed; existing slots and everything else stay as they
    /// are.
    #[verifier::loop_isolation(false)]
    fn ensure_player_slots(&mut self, n: usize)
        requires
            8 * old(self).tick as int <= usize::MAX as int,
            old(self).player_info@.len() == old(self).players@.len(),
        ensures
            final(self).players@.len() == if old(self).players@.len() >= n as int {
                old(self).players@.len() as int
            } else {
                n as int
            },
            forall|j: int|
                0 <= j < old(self).players@.len() ==> final(self).players@[j] == old(self).players@[j],
            forall|j: int|
                old(self).players@.len() <= j < final(self).players@.len() ==> (#[trigger] final(self).players@[j])@ == zeros((8 * old(self).tick as int) as nat),
            final(self).player_info@.len() == final(self).players@.len(),
            forall|j: int|
                0 <= j < old(self).player_info@.len() ==> final(self).player_info@[j] == old(self).player_info@[j],
            forall|j: int|
                old(self).player_info@.len() <= j < final(self).player_info@.len()
                    ==> final(self).player_info@[j] is None,
            final(self).last_tick == old(self).last_tick,
            final(self).tick == old(self).tick,
            final(self).buildings == old(self).buildings,
            final(self).kills == old(self).kills,
            final(self).header == old(self).header,
            final(self).max_building_count == old(self).max_building_count,
    {
        while self.players.len() < n
            invariant
                8 * self.tick as int <= usize::MAX as int,
                old(self).players@.len() <= self.players@.len(),
                self.players@.len() <= n as int || self.players@.len() == old(self).players@.len(),
                forall|j: int|
                    0 <= j < old(self).players@.len() ==> self.players@[j] == old(self).players@[j],
                forall|j: int|
                    old(self).players@.len() <= j < self.players@.len() ==> (#[trigger] self
                        .players@[j])@ == zeros((8 * old(self).tick as int) as nat),
                self.player_info@.len() == self.players@.len(),
                forall|j: int|
                    0 <= j < old(self).player_info@.len() ==> self.player_info@[j] == old(self).player_info@[j],
                forall|j: int|
                    old(self).player_info@.len() <= j < self.player_info@.len()
                        ==> self.player_info@[j] is None,
                self.last_tick == old(self).last_tick,
                self.tick == old(self).tick,
                self.buildings == old(self).buildings,
                self.kills == old(self).kills,
                self.header == old(self).header,
                self.max_building_count == old(self).max_building_count,
            decreases n - self.players@.len(),
        {
            let mut buf: Vec<u8> = Vec::new();
            pad_zeros(&mut buf, self.tick * 8);
            proof {
                assert(buf@ =~= zeros((8 * self.tick as int) as nat));
            }
            self.players.push(buf);
            self.player_info.push(None);
        }
    }

    /// Copies identity info into the table on first sighting of a slot's
    /// info: a slot whose entry is already set keeps it, one whose snapshot
    /// entry carries no info stays unset; everything else is unchanged.
    #[verifier::loop_isolation(false)]
    fn capture_identity(&mut self, players: &Vec<PlayerSnap>)
        requires
            players@.len() <= old(self).player_info@.len(),
        ensures
            final(self).player_info@.len() == old(self).player_info@.len(),
            forall|j: int|
                0 <= j < old(self).player_info@.len() ==> final(self).player_info@[j] == (
                if j < players@.len() && old(self).player_info@[j] is None {
                    players@[j].info
                } else {
                    old(self).player_info@[j]
                }),
            final(self).last_tick == old(self).last_tick,
            final(self).tick == old(self).tick,
            final(self).players == old(self).players,
            final(self).buildings == old(self).buildings,
            final(self).kills == old(self).kills,
            final(self).header == old(self).header,
            final(self).max_building_count == old(self).max_building_count,
    {
        let mut i: usize = 0;
        while i < players.len()
            invariant
                i <= players@.len(),
                players@.len() <= self.player_info@.len(),
                self.player_info@.len() == old(self).player_info@.len(),
                forall|j: int|
                    0 <= j < i ==> self.player_info@[j] == (if old(self).player_info@[j] is None {
                        players@[j].info
                    } else {
                        old(self).player_info@[j]
                    }),
                forall|j: int|
                    i <= j < old(self).player_info@.len() ==> self.player_info@[j] == old(self).player_info@[j],
                self.last_tick == old(self).last_tick,
                self.tick == old(self).tick,
                self.players == old(self).players,
                self.buildings == old(self).buildings,
                self.kills == old(self).kills,
                self.header == old(self).header,
                self.max_building_count == old(self).max_building_count,
            decreases players@.len() - i,
        {
            if self.player_info[i].is_none() {
                match &players[i].info {
                    Some(m) => {
                        let c = m.duplicate();
                        self.player_info.set(i, Some(c));
                    },
                    None => {},
                }
            }
            i += 1;
        }
    }

    /// Creates empty buffers for building slots up to `n`; existing slots
    /// and everything else stay as they are.
    #[verifier::loop_isolation(false)]
    fn ensure_building_slots(&mut self, n: usize)
        ensures
            final(self).buildings@.len() == if old(self).buildings@.len() >= n as int {
                old(self).buildings@.len() as int
            } else {
                n as int
            },
            forall|j: int|
                0 <= j < old(self).buildings@.len() ==> final(self).buildings@[j] == old(self).buildings@[j],
            forall|j: int|
                old(self).buildings@.len() <= j < final(self).buildings@.len() ==> (
                #[trigger] final(self).buildings@[j])@ == Seq::<u8>::empty(),
            final(self).last_tick == old(self).last_tick,
            final(self).tick == old(self).tick,
            final(self).players == old(self).players,
            final(self).kills == old(self).kills,
            final(self).header == old(self).header,
            final(self).player_info == old(self).player_info,
            final(self).max_building_count == old(self).max_building_count,
    {
        while self.buildings.len() < n
            invariant
                old(self).buildings@.len() <= self.buildings@.len(),
                self.buildings@.len() <= n as int || self.buildings@.len() == old(self).buildings@.len(),
                forall|j: int|
                    0 <= j < old(self).buildings@.len() ==> self.buildings@[j] == old(self).buildings@[j],
                forall|j: int|
                    old(self).buildings@.len() <= j < self.buildings@.len() ==> (#[trigger] self
                        .buildings@[j])@ == Seq::<u8>::empty(),
                self.last_tick == old(self).last_tick,
                self.tick == old(self).tick,
                self.players == old(self).players,
                self.kills == old(self).kills,
                self.header == old(self).header,
                self.player_info == old(self).player_info,
                self.max_building_count == old(self).max_building_count,
            decreases n - self.buildings@.len(),
        {
            let buf: Vec<u8> = Vec::new();
            self.buildings.push(buf);
        }
    }

    /// Zero-pads the first `n` building buffers up to the current
    /// processed-tick offset: the gap-fill that realigns a building buffer
    /// after the building was absent for some ticks.
    #[verifier::loop_isolation(false)]
    fn gap_fill_buildings(&mut self, n: usize)
        requires
            n as int <= old(self).buildings@.len(),
            7 * old(self).tick as int <= usize::MAX as int,
            forall|i: int|
                0 <= i < old(self).buildings@.len() ==> (#[trigger] old(self).buildings@[i])@.len() <= 7 * old(self).tick as int,
        ensures
            final(self).buildings@.len() == old(self).buildings@.len(),
            forall|i: int|
                0 <= i < n as int ==> (#[trigger] final(self).buildings@[i])@ == pad_to(
                    old(self).buildings@[i]@,
                    7 * old(self).tick as int,
                ),
            forall|i: int|
                n as int <= i < old(self).buildings@.len() ==> final(self).buildings@[i] == old(self).buildings@[i],
            final(self).last_tick == old(self).last_tick,
            final(self).tick == old(self).tick,
            final(self).players == old(self).players,
            final(self).kills == old(self).kills,
            final(self).header == old(self).header,
            final(self).player_info == old(self).player_info,
            final(self).max_building_count == old(self).max_building_count,
    {
        let target: usize = self.tick * 7;
        let mut i: usize = 0;
        while i < n
            invariant
                i <= n,
                n as int <= self.buildings@.len(),
                target as int == 7 * old(self).tick as int,
                self.buildings@.len() == old(self).buildings@.len(),
                forall|j: int|
                    0 <= j < i ==> (#[trigger] self.buildings@[j])@ == pad_to(
                        old(self).buildings@[j]@,
                        7 * old(self).tick as int,
                    ),
                forall|j: int|
                    i <= j < old(self).buildings@.len() ==> self.buildings@[j] == old(self).buildings@[j],
                self.last_tick == old(self).last_tick,
                self.tick == old(self).tick,
                self.players == old(self).players,
                self.kills == old(self).kills,
                self.header == old(self).header,
                self.player_info == old(self).player_info,
                self.max_building_count == old(self).max_building_count,
            decreases n - i,
        {
            pad_slot(&mut self.buildings, i, target);
            i += 1;
        }
    }
}


impl ParsedDemo {
    /// Appends, for each of `d` consecutive ticks, the packed record of
    /// every player and building present in the snapshot to its slot's
    /// buffer, and advances the processed-tick count by `d`.
    #[verifier::loop_isolation(false)]
    fn append_tick_records(&mut self, snap: &Snapshot, d: u32)
        requires
            snap.valid(),
            snap.players@.len() <= old(self).players@.len(),
            snap.buildings@.len() <= old(self).buildings@.len(),
            8 * (old(self).tick as int + d as int) <= usize::MAX as int,
        ensures
            final(self).tick as int == old(self).tick as int + d as int,
            final(self).players@.len() == old(self).players@.len(),
            final(self).buildings@.len() == old(self).buildings@.len(),
            forall|i: int|
                0 <= i < snap.players@.len() ==> (#[trigger] final(self).players@[i])@ == old(self).players@[i]@ + repeated(snap.players@[i].record_state().rec_bytes(), d as nat),
            forall|i: int|
                snap.players@.len() <= i < old(self).players@.len() ==> final(self).players@[i]
                    == old(self).players@[i],
            forall|i: int|
                0 <= i < snap.buildings@.len() ==> (#[trigger] final(self).buildings@[i])@ == old(self).buildings@[i]@ + repeated(snap.buildings@[i].rec_bytes(), d as nat),
            forall|i: int|
                snap.buildings@.len() <= i < old(self).buildings@.len() ==> final(self).buildings@[i] == old(self).buildings@[i],
            final(self).last_tick == old(self).last_tick,
            final(self).kills == old(self).kills,
            final(self).header == old(self).header,
            final(self).player_info == old(self).player_info,
            final(self).max_building_count == old(self).max_building_count,
    {
        let mut t: u32 = 0;
        while t < d
            invariant
                t <= d,
                self.tick as int == old(self).tick as int + t as int,
                self.players@.len() == old(self).players@.len(),
                self.buildings@.len() == old(self).buildings@.len(),
                forall|i: int|
                    0 <= i < snap.players@.len() ==> (#[trigger] self.players@[i])@ == old(self).players@[i]@ + repeated(
                        snap.players@[i].record_state().rec_bytes(),
                        t as nat,
                    ),
                forall|i: int|
                    snap.players@.len() <= i < old(self).players@.len() ==> self.players@[i]
                        == old(self).players@[i],
                forall|i: int|
                    0 <= i < snap.buildings@.len() ==> (#[trigger] self.buildings@[i])@ == old(self).buildings@[i]@ + repeated(snap.buildings@[i].rec_bytes(), t as nat),
                forall|i: int|
                    snap.buildings@.len() <= i < old(self).buildings@.len() ==> self.buildings@[i]
                        == old(self).buildings@[i],
                self.last_tick == old(self).last_tick,
                self.kills == old(self).kills,
                self.header == old(self).header,
                self.player_info == old(self).player_info,
                self.max_building_count == old(self).max_building_count,
            decreases d - t,
        {
            let ghost tn = t as nat;
            let mut i: usize = 0;
            while i < snap.players.len()
                invariant
                    i <= snap.players@.len(),
                    self.tick as int == old(self).tick as int + t as int,
                    self.players@.len() == old(self).players@.len(),
                    self.buildings@.len() == old(self).buildings@.len(),
                    forall|j: int|
                        0 <= j < i ==> (#[trigger] self.players@[j])@ == old(self).players@[j]@
                            + repeated(
                            snap.players@[j].record_state().rec_bytes(),
                            (tn + 1) as nat,
                        ),
                    forall|j: int|
                        i <= j < snap.players@.len() ==> (#[trigger] self.players@[j])@ == old(self).players@[j]@ + repeated(
                            snap.players@[j].record_state().rec_bytes(),
                            tn,
                        ),
                    forall|j: int|
                        snap.players@.len() <= j < old(self).players@.len() ==> self.players@[j]
                            == old(self).players@[j],
                    forall|j: int|
                        0 <= j < snap.buildings@.len() ==> (#[trigger] self.buildings@[j])@ == old(self).buildings@[j]@ + repeated(snap.buildings@[j].rec_bytes(), tn),
                    forall|j: int|
                        snap.buildings@.len() <= j < old(self).buildings@.len()
                            ==> self.buildings@[j] == old(self).buildings@[j],
                    self.last_tick == old(self).last_tick,
                    self.kills == old(self).kills,
                    self.header == old(self).header,
                    self.player_info == old(self).player_info,
                    self.max_building_count == old(self).max_building_count,
                decreases snap.players@.len() - i,
            {
                let ghost j = i as int;
                let rec = snap.players[i].to_record();
                let bytes = rec.pack();
                append_record(&mut self.players, i, bytes.as_slice());
                proof {
                    let rb = snap.players@[j].record_state().rec_bytes();
                    assert(old(self).players@[j]@ + repeated(rb, tn) + rb =~= old(self).players@[j]@ + repeated(rb, (tn + 1) as nat));
                }
                i += 1;
            }
            let mut i: usize = 0;
            while i < snap.buildings.len()
                invariant
                    i <= snap.buildings@.len(),
                    self.tick as int == old(self).tick as int + t as int,
                    self.players@.len() == old(self).players@.len(),
                    self.buildings@.len() == old(self).buildings@.len(),
                    forall|j: int|
                        0 <= j < snap.players@.len() ==> (#[trigger] self.players@[j])@ == old(self).players@[j]@ + repeated(
                            snap.players@[j].record_state().rec_bytes(),
                            (tn + 1) as nat,
                        ),
                    forall|j: int|
                        snap.players@.len() <= j < old(self).players@.len() ==> self.players@[j]
                            == old(self).players@[j],
                    forall|j: int|
                        0 <= j < i ==> (#[trigger] self.buildings@[j])@ == old(self).buildings@[j]@ + repeated(snap.buildings@[j].rec_bytes(), (tn + 1) as nat),
                    forall|j: int|
                        i <= j < snap.buildings@.len() ==> (#[trigger] self.buildings@[j])@ == old(self).buildings@[j]@ + repeated(snap.buildings@[j].rec_bytes(), tn),
                    forall|j: int|
                        snap.buildings@.len() <= j < old(self).buildings@.len()
                            ==> self.buildings@[j] == old(self).buildings@[j],
                    self.last_tick == old(self).last_tick,
                    self.kills == old(self).kills,
                    self.header == old(self).header,
                    self.player_info == old(self).player_info,
                    self.max_building_count == old(self).max_building_count,
                decreases snap.buildings@.len() - i,
            {
                let ghost j = i as int;
                let b = snap.buildings[i];
                let bytes = b.pack();
                append_record(&mut self.buildings, i, bytes.as_slice());
                proof {
                    let rb = snap.buildings@[j].rec_bytes();
                    assert(old(self).buildings@[j]@ + repeated(rb, tn) + rb =~= old(self).buildings@[j]@ + repeated(rb, (tn + 1) as nat));
                }
                i += 1;
            }
            self.tick = self.tick + 1;
            t = t + 1;
        }
    }
}


impl ParsedDemo {
    /// Ingests one snapshot, in tick order. A snapshot without world
    /// bounds is ignored entirely. Otherwise its kill events are appended
    /// to the kill log, and if its tick lies beyond the last one taken,
    /// every tick in between is processed: each player present gets its
    /// packed record appended once per tick (a new slot is first
    /// back-filled with zero records), each building present gets its
    /// buffer gap-filled with zero bytes up to the current tick offset and
    /// then its record appended once per tick, identity info is captured
    /// on first sighting, and the maximum simultaneous building count is
    /// updated.
    pub fn push_state(&mut self, snap: &Snapshot)
        requires
            old(self).wf(),
            snap.valid(),
            8 * snap.tick as int <= usize::MAX as int,
        ensures
            final(self).wf(),
            final(self).header == old(self).header,
            !snap.has_world ==> *final(self) == *old(self),
            snap.has_world ==> final(self).kills@ == old(self).kills@ + snap.kills@,
            snap.has_world ==> final(self).last_tick == (if snap.tick > old(self).last_tick {
                snap.tick
            } else {
                old(self).last_tick
            }),
            snap.has_world && snap.tick <= old(self).last_tick ==> final(self).players == old(self).players && final(self).buildings == old(self).buildings && final(self).player_info
                == old(self).player_info && final(self).max_building_count == old(self).max_building_count && final(self).tick == old(self).tick,
            snap.has_world && snap.tick > old(self).last_tick ==> {
                let d = snap.tick as int - old(self).last_tick as int;
                &&& final(self).tick as int == snap.tick as int
                &&& final(self).players@.len() == (if old(self).players@.len()
                    >= snap.players@.len() {
                    old(self).players@.len() as int
                } else {
                    snap.players@.len() as int
                })
                &&& forall|i: int|
                    0 <= i < snap.players@.len() ==> (#[trigger] final(self).players@[i])@
                        == player_base(*old(self), i) + repeated(
                        snap.players@[i].record_state().rec_bytes(),
                        d as nat,
                    )
                &&& forall|i: int|
                    snap.players@.len() <= i < old(self).players@.len() ==> final(self).players@[i]
                        == old(self).players@[i]
                &&& forall|i: int|
                    0 <= i < snap.players@.len() ==> (i >= old(self).players@.len() || old(self).players@[i]@.len() == 8 * old(self).tick as int) ==> (#[trigger] final(self).players@[i])@.len() == 8 * final(self).tick as int
                &&& final(self).buildings@.len() == (if old(self).buildings@.len()
                    >= snap.buildings@.len() {
                    old(self).buildings@.len() as int
                } else {
                    snap.buildings@.len() as int
                })
                &&& forall|i: int|
                    0 <= i < snap.buildings@.len() ==> (#[trigger] final(self).buildings@[i])@
                        == pad_to(building_base(*old(self), i), 7 * old(self).tick as int)
                        + repeated(snap.buildings@[i].rec_bytes(), d as nat)
                &&& forall|i: int|
                    0 <= i < snap.buildings@.len() ==> (#[trigger] final(self).buildings@[i])@.len() == 7 * final(self).tick as int
                &&& forall|i: int|
                    snap.buildings@.len() <= i < old(self).buildings@.len() ==> final(self).buildings@[i] == old(self).buildings@[i]
                &&& forall|i: int|
                    0 <= i < final(self).player_info@.len() ==> final(self).player_info@[i] == (
                    if i >= snap.players@.len() {
                        old(self).player_info@[i]
                    } else if i < old(self).player_info@.len() && !(old(self).player_info@[i]
                        is None) {
                        old(self).player_info@[i]
                    } else {
                        snap.players@[i].info
                    })
            },
    {
        if !snap.has_world {
            return ;
        }
        self.record_kills(&snap.kills);
        if snap.tick <= self.last_tick {
            return ;
        }
        let d: u32 = snap.tick - self.last_tick;
        self.ensure_player_slots(snap.players.len());
        self.capture_identity(&snap.players);
        if snap.buildings.len() > self.max_building_count {
            self.max_building_count = snap.buildings.len();
        }
        self.ensure_building_slots(snap.buildings.len());
        proof {
            assert forall|i: int| 0 <= i < self.buildings@.len() implies (#[trigger] self
                .buildings@[i])@.len() <= 7 * self.tick as int by {
                if i >= old(self).buildings@.len() {
                    assert(self.buildings@[i]@ == Seq::<u8>::empty());
                }
            }
        }
        self.gap_fill_buildings(snap.buildings.len());
        self.append_tick_records(snap, d);
        self.last_tick = snap.tick;
        proof {
            let pre = *old(self);
            let post = *self;
            let dd = d as nat;
            assert forall|i: int| 0 <= i < snap.players@.len() implies (#[trigger] post
                .players@[i])@ == player_base(pre, i) + repeated(
                snap.players@[i].record_state().rec_bytes(),
                dd,
            ) by {
                if i >= pre.players@.len() {
                    assert(player_base(pre, i) == zeros((8 * pre.tick as int) as nat));
                }
            }
            assert forall|i: int| 0 <= i < snap.buildings@.len() implies (#[trigger] post
                .buildings@[i])@ == pad_to(building_base(pre, i), 7 * pre.tick as int) + repeated(
                snap.buildings@[i].rec_bytes(),
                dd,
            ) by {
                if i >= pre.buildings@.len() {
                    assert(pad_to(building_base(pre, i), 7 * pre.tick as int) =~= pad_to(
                        Seq::<u8>::empty(),
                        7 * pre.tick as int,
                    ));
                }
            }
            assert forall|i: int| 0 <= i < snap.players@.len() implies (#[trigger] post
                .players@[i])@.len() == player_base(pre, i).len() + 8 * dd by {
                let rb = snap.players@[i].record_state().rec_bytes();
                lemma_repeated_len(rb, dd);
                assert(rb.len() == 8);
                assert(dd * 8 == 8 * dd) by (nonlinear_arith);
            }
            assert forall|i: int| 0 <= i < snap.buildings@.len() implies (#[trigger] post
                .buildings@[i])@.len() == 7 * pre.tick as int + 7 * dd by {
                let rb = snap.buildings@[i].rec_bytes();
                lemma_repeated_len(rb, dd);
                assert(rb.len() == 7);
                assert(dd * 7 == 7 * dd) by (nonlinear_arith);
                assert(pad_to(building_base(pre, i), 7 * pre.tick as int).len() == 7
                    * pre.tick as int);
            }
            assert forall|i: int| 0 <= i < post.players@.len() implies (#[trigger] post
                .players@[i])@.len() % 8 == 0 && post.players@[i]@.len() <= 8 * post.tick as int
                by {
                if i < snap.players@.len() {
                    assert(post.players@[i]@.len() == player_base(pre, i).len() + 8 * dd);
                    assert(player_base(pre, i).len() % 8 == 0);
                    assert(player_base(pre, i).len() <= 8 * pre.tick as int);
                } else if i < pre.players@.len() {
                    assert(post.players@[i] == pre.players@[i]);
                } else {
                    assert(post.players@[i]@ == zeros((8 * pre.tick as int) as nat));
                }
            }
            assert forall|i: int| 0 <= i < post.buildings@.len() implies (#[trigger] post
                .buildings@[i])@.len() % 7 == 0 && post.buildings@[i]@.len() <= 7
                * post.tick as int by {
                if i < snap.buildings@.len() {
                    assert(post.buildings@[i]@.len() == 7 * pre.tick as int + 7 * dd);
                } else if i < pre.buildings@.len() {
                    assert(post.buildings@[i] == pre.buildings@[i]);
                } else {
                    assert(post.buildings@[i]@ == Seq::<u8>::empty());
                }
            }
        }
    }

    /// Pads every building buffer with zero bytes up to the final tick
    /// offset, so that after this call every building buffer covers every
    /// processed tick; players already do by construction.
    #[verifier::loop_isolation(false)]
    pub fn finish(&mut self)
        requires
            old(self).wf(),
        ensures
            final(self).wf(),
            final(self).buildings@.len() == old(self).buildings@.len(),
            forall|i: int|
                0 <= i < old(self).buildings@.len() ==> (#[trigger] final(self).buildings@[i])@
                    == pad_to(old(self).buildings@[i]@, 7 * old(self).tick as int),
            forall|i: int|
                0 <= i < old(self).buildings@.len() ==> (#[trigger] final(self).buildings@[i])@.len() == 7 * final(self).tick as int,
            final(self).last_tick == old(self).last_tick,
            final(self).tick == old(self).tick,
            final(self).players == old(self).players,
            final(self).kills == old(self).kills,
            final(self).header == old(self).header,
            final(self).player_info == old(self).player_info,
            final(self).max_building_count == old(self).max_building_count,
    {
        let n = self.buildings.len();
        self.gap_fill_buildings(n);
    }
}


/// The summed byte length of a sequence of buffers.
pub open spec fn total_len(bufs: Seq<Vec<u8>>) -> int
    decreases bufs.len(),
{
    if bufs.len() == 0 {
        0
    } else {
        total_len(bufs.drop_last()) + bufs.last()@.len()
    }
}

pub proof fn lemma_total_len_step(bufs: Seq<Vec<u8>>, i: int)
    requires
        0 <= i < bufs.len(),
    ensures
        total_len(bufs.take(i + 1)) == total_len(bufs.take(i)) + bufs[i]@.len(),
{
    assert(bufs.take(i + 1).drop_last() =~= bufs.take(i));
    assert(bufs.take(i + 1).last() == bufs[i]);
}

pub proof fn lemma_total_len_take(bufs: Seq<Vec<u8>>, i: int)
    requires
        0 <= i <= bufs.len(),
    ensures
        total_len(bufs.take(i)) <= total_len(bufs),
    decreases bufs.len() - i,
{
    if i == bufs.len() {
        assert(bufs.take(i) =~= bufs);
    } else {
        lemma_total_len_step(bufs, i);
        lemma_total_len_take(bufs, i + 1);
    }
}

impl ParsedDemo {
    /// The total number of bytes held in the player buffers.
    #[verifier::loop_isolation(false)]
    pub fn size(&self) -> (r: usize)
        requires
            total_len(self.players@) <= usize::MAX as int,
        ensures
            r as int == total_len(self.players@),
    {
        let mut total: usize = 0;
        let mut i: usize = 0;
        while i < self.players.len()
            invariant
                i <= self.players@.len(),
                total as int == total_len(self.players@.take(i as int)),
            decreases self.players@.len() - i,
        {
            proof {
                lemma_total_len_step(self.players@, i as int);
                lemma_total_len_take(self.players@, i as int + 1);
            }
            total = total + self.players[i].len();
            i += 1;
        }
        proof {
            assert(self.players@.take(self.players@.len() as int) =~= self.players@);
        }
        total
    }
}


/// A player reported not alive encodes to a record that decodes to
/// health 0, whatever the source's raw health field held.
pub proof fn lemma_dead_player_health(p: PlayerSnap)
    requires
        p.valid(),
        !p.alive,
    ensures
        PlayerState::unpacked(p.record_state().rec_bytes()).health == 0,
{
    crate::records::lemma_player_round_trip(p.record_state());
}

} // verus!
