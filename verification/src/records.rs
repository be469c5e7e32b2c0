use vstd::prelude::*;

verus! {

/// Team code as delivered by the tick source: 2 is the red team, 3 the blue team.
pub const TEAM_RED: u8 = 2;

pub const TEAM_BLUE: u8 = 3;

/// A view angle quantized to one byte: 256 steps over [0, 360) degrees.
#[derive(Debug, Clone, Copy, PartialEq, Eq, Structural)]
pub struct Angle(pub u8);

impl Default for Angle {
    fn default() -> (r: Self)
        ensures
            r == Angle(0u8),
    {
        Angle(0)
    }
}

/// Low byte of a 16-bit word in little-endian order.
pub open spec fn lo(w: u16) -> u8 {
    (w & 0xff) as u8
}

/// High byte of a 16-bit word in little-endian order.
pub open spec fn hi(w: u16) -> u8 {
    (w >> 8) as u8
}

/// The 16-bit word read from two little-endian bytes.
pub open spec fn le16(b0: u8, b1: u8) -> u16 {
    (b0 as u16) | ((b1 as u16) << 8)
}

pub proof fn lemma_le16_lo_hi(w: u16)
    ensures
        le16(lo(w), hi(w)) == w,
{
    assert((((w & 0xff) as u8) as u16) | ((((w >> 8) as u8) as u16) << 8) == w) by (bit_vector);
}

/// One player's state for one tick, all fields already quantized to the
/// widths of the record layout: positions as 16-bit codes over the world
/// bounds, the angle as one byte, health at most 10 bits, team 2 bits,
/// class 4 bits, charge one byte.
#[derive(Debug, Clone, Copy, PartialEq, Eq, Structural)]
pub struct PlayerState {
    pub x: u16,
    pub y: u16,
    pub angle: Angle,
    pub health: u16,
    pub team: u8,
    pub class: u8,
    pub charge: u8,
}

impl PlayerState {
    /// The fields fit the bit widths of the packed record.
    pub open spec fn valid(self) -> bool {
        self.health < 1024 && self.team < 4 && self.class < 16
    }

    /// The 16-bit field packing team (2 bits, high) | class (4 bits) | health (10 bits, low).
    pub open spec fn word(self) -> u16 {
        ((self.team as u16) << 14) | ((self.class as u16) << 10) | self.health
    }

    /// The 8-byte record: x, y, packed word, each little-endian, then angle and charge.
    pub open spec fn rec_bytes(self) -> Seq<u8> {
        seq![
            lo(self.x),
            hi(self.x),
            lo(self.y),
            hi(self.y),
            lo(self.word()),
            hi(self.word()),
            self.angle.0,
            self.charge,
        ]
    }

    /// The player state read back from an 8-byte record.
    pub open spec fn unpacked(b: Seq<u8>) -> PlayerState
        recommends
            b.len() == 8,
    {
        PlayerState {
            x: le16(b[0], b[1]),
            y: le16(b[2], b[3]),
            health: le16(b[4], b[5]) & 1023,
            class: ((le16(b[4], b[5]) >> 10) & 15) as u8,
            team: (le16(b[4], b[5]) >> 14) as u8,
            angle: Angle(b[6]),
            charge: b[7],
        }
    }

    /// Packs this state into its 8-byte little-endian record.
    pub fn pack(&self) -> (bytes: [u8; 8])
        requires
            self.valid(),
        ensures
            bytes@ == self.rec_bytes(),
    {
        let t: u16 = self.team as u16;
        let c: u16 = self.class as u16;
        let h: u16 = self.health;
        assert((t << 14) <= 0xc000) by (bit_vector)
            requires
                t < 4,
        ;
        assert((c << 10) <= 0x3c00) by (bit_vector)
            requires
                c < 16,
        ;
        let w: u16 = (t << 14) + (c << 10) + h;
        assert(w == ((t << 14) | (c << 10) | h)) by (bit_vector)
            requires
                w == ((t << 14) + (c << 10)) + h,
                t < 4,
                c < 16,
                h < 1024,
        ;
        let bytes: [u8; 8] = [
            (self.x & 0xff) as u8,
            (self.x >> 8) as u8,
            (self.y & 0xff) as u8,
            (self.y >> 8) as u8,
            (w & 0xff) as u8,
            (w >> 8) as u8,
            self.angle.0,
            self.charge,
        ];
        assert(bytes@ =~= self.rec_bytes());
        bytes
    }

    /// Unpacks an 8-byte record; the result always fits the record's bit widths.
    pub fn unpack(bytes: [u8; 8]) -> (r: PlayerState)
        ensures
            r == PlayerState::unpacked(bytes@),
            r.valid(),
    {
        let w: u16 = (bytes[4] as u16) | ((bytes[5] as u16) << 8);
        assert((w & 1023) < 1024 && ((w >> 10) & 15) < 16 && (w >> 14) < 4) by (bit_vector);
        PlayerState {
            x: (bytes[0] as u16) | ((bytes[1] as u16) << 8),
            y: (bytes[2] as u16) | ((bytes[3] as u16) << 8),
            health: w & 1023,
            class: ((w >> 10) & 15) as u8,
            team: (w >> 14) as u8,
            angle: Angle(bytes[6]),
            charge: bytes[7],
        }
    }
}

/// The closed set of building kinds the record layout distinguishes,
/// derived from the source's building variant and its sub-fields.
#[derive(Debug, Clone, Copy, PartialEq, Eq, Structural)]
pub enum BuildingType {
    TeleporterEntrance,
    TeleporterExit,
    Dispenser,
    Level1Sentry,
    Level2Sentry,
    Level3Sentry,
    MiniSentry,
    Unknown,
}

impl Default for BuildingType {
    fn default() -> (r: Self)
        ensures
            r == BuildingType::Unknown,
    {
        BuildingType::Unknown
    }
}

/// The 3-bit code a building type takes inside the packed record.
pub open spec fn type_code(t: BuildingType) -> u8 {
    match t {
        BuildingType::TeleporterEntrance => 0,
        BuildingType::TeleporterExit => 1,
        BuildingType::Dispenser => 2,
        BuildingType::Level1Sentry => 3,
        BuildingType::Level2Sentry => 4,
        BuildingType::Level3Sentry => 5,
        BuildingType::MiniSentry => 6,
        BuildingType::Unknown => 7,
    }
}

/// The building type a 3-bit code stands for; codes past the known kinds
/// read as `Unknown`.
pub open spec fn type_of_code(raw: u8) -> BuildingType {
    if raw == 0 {
        BuildingType::TeleporterEntrance
    } else if raw == 1 {
        BuildingType::TeleporterExit
    } else if raw == 2 {
        BuildingType::Dispenser
    } else if raw == 3 {
        BuildingType::Level1Sentry
    } else if raw == 4 {
        BuildingType::Level2Sentry
    } else if raw == 5 {
        BuildingType::Level3Sentry
    } else if raw == 6 {
        BuildingType::MiniSentry
    } else {
        BuildingType::Unknown
    }
}

impl BuildingType {
    /// Reads a building type back from its record code.
    pub fn new(raw: u8) -> (r: BuildingType)
        ensures
            r == type_of_code(raw),
    {
        match raw {
            0 => Self::TeleporterEntrance,
            1 => Self::TeleporterExit,
            2 => Self::Dispenser,
            3 => Self::Level1Sentry,
            4 => Self::Level2Sentry,
            5 => Self::Level3Sentry,
            6 => Self::MiniSentry,
            _ => Self::Unknown,
        }
    }

    /// The record code of this building type.
    pub fn code(&self) -> (r: u8)
        ensures
            r == type_code(*self),
            r < 8,
    {
        match self {
            BuildingType::TeleporterEntrance => 0,
            BuildingType::TeleporterExit => 1,
            BuildingType::Dispenser => 2,
            BuildingType::Level1Sentry => 3,
            BuildingType::Level2Sentry => 4,
            BuildingType::Level3Sentry => 5,
            BuildingType::MiniSentry => 6,
            BuildingType::Unknown => 7,
        }
    }
}

/// Every building type survives its 3-bit record code exactly.
pub proof fn lemma_type_code_round_trip(t: BuildingType)
    ensures
        type_of_code(type_code(t)) == t,
{
}

/// One building's state for one tick, quantized like a player record:
/// positions as 16-bit codes, the angle as one byte, health at most 10
/// bits, the team one of the two playing sides, the level 2 bits.
#[derive(Debug, Clone, Copy, PartialEq, Eq, Structural)]
pub struct BuildingState {
    pub x: u16,
    pub y: u16,
    pub angle: Angle,
    pub health: u16,
    pub team: u8,
    pub ty: BuildingType,
    pub level: u8,
}

impl BuildingState {
    /// The fields fit the bit widths of the packed record; the team is one
    /// of the two sides the single team bit can hold.
    pub open spec fn valid(self) -> bool {
        self.health < 1024 && self.level < 4 && (self.team == TEAM_RED || self.team == TEAM_BLUE)
    }

    /// The single team bit of the record: 0 for blue, 1 for red.
    pub open spec fn team_bit(self) -> u16 {
        if self.team == TEAM_BLUE {
            0
        } else {
            1
        }
    }

    /// The 16-bit field packing level (2 bits, high) | team (1 bit) |
    /// type (3 bits) | health (10 bits, low).
    pub open spec fn word(self) -> u16 {
        ((self.level as u16) << 14) | (self.team_bit() << 13) | ((type_code(self.ty) as u16) << 10)
            | self.health
    }

    /// The 7-byte record: x, y, packed word, each little-endian, then angle.
    pub open spec fn rec_bytes(self) -> Seq<u8> {
        seq![
            lo(self.x),
            hi(self.x),
            lo(self.y),
            hi(self.y),
            lo(self.word()),
            hi(self.word()),
            self.angle.0,
        ]
    }

    /// The building state read back from a 7-byte record.
    pub open spec fn unpacked(b: Seq<u8>) -> BuildingState
        recommends
            b.len() == 7,
    {
        BuildingState {
            x: le16(b[0], b[1]),
            y: le16(b[2], b[3]),
            health: le16(b[4], b[5]) & 1023,
            team: if (le16(b[4], b[5]) >> 13) & 1 == 0 {
                TEAM_BLUE
            } else {
                TEAM_RED
            },
            ty: type_of_code(((le16(b[4], b[5]) >> 10) & 7) as u8),
            level: (le16(b[4], b[5]) >> 14) as u8,
            angle: Angle(b[6]),
        }
    }

    /// Packs this state into its 7-byte little-endian record.
    pub fn pack(&self) -> (bytes: [u8; 7])
        requires
            self.valid(),
        ensures
            bytes@ == self.rec_bytes(),
    {
        let lv: u16 = self.level as u16;
        let tb: u16 = if self.team == TEAM_BLUE {
            0
        } else {
            1
        };
        let ty: u16 = self.ty.code() as u16;
        let h: u16 = self.health;
        assert((lv << 14) <= 0xc000) by (bit_vector)
            requires
                lv < 4,
        ;
        assert((tb << 13) <= 0x2000) by (bit_vector)
            requires
                tb < 2,
        ;
        assert((ty << 10) <= 0x1c00) by (bit_vector)
            requires
                ty < 8,
        ;
        let w: u16 = (lv << 14) + (tb << 13) + (ty << 10) + h;
        assert(w == ((lv << 14) | (tb << 13) | (ty << 10) | h)) by (bit_vector)
            requires
                w == (((lv << 14) + (tb << 13)) + (ty << 10)) + h,
                lv < 4,
                tb < 2,
                ty < 8,
                h < 1024,
        ;
        let bytes: [u8; 7] = [
            (self.x & 0xff) as u8,
            (self.x >> 8) as u8,
            (self.y & 0xff) as u8,
            (self.y >> 8) as u8,
            (w & 0xff) as u8,
            (w >> 8) as u8,
            self.angle.0,
        ];
        assert(bytes@ =~= self.rec_bytes());
        bytes
    }

    /// Unpacks a 7-byte record; the result always fits the record's bit widths.
    pub fn unpack(bytes: [u8; 7]) -> (r: BuildingState)
        ensures
            r == BuildingState::unpacked(bytes@),
            r.valid(),
    {
        let w: u16 = (bytes[4] as u16) | ((bytes[5] as u16) << 8);
        assert((w & 1023) < 1024 && ((w >> 10) & 7) < 8 && (w >> 14) < 4) by (bit_vector);
        BuildingState {
            x: (bytes[0] as u16) | ((bytes[1] as u16) << 8),
            y: (bytes[2] as u16) | ((bytes[3] as u16) << 8),
            health: w & 1023,
            team: if (w >> 13) & 1 == 0 {
                TEAM_BLUE
            } else {
                TEAM_RED
            },
            ty: BuildingType::new(((w >> 10) & 7) as u8),
            level: (w >> 14) as u8,
            angle: Angle(bytes[6]),
        }
    }
}

/// Unpacking the packed record of any valid building state gives the
/// state back exactly: every field survives the record layout without loss.
pub proof fn lemma_building_round_trip(s: BuildingState)
    requires
        s.valid(),
    ensures
        BuildingState::unpacked(s.rec_bytes()) == s,
{
    lemma_le16_lo_hi(s.x);
    lemma_le16_lo_hi(s.y);
    lemma_le16_lo_hi(s.word());
    let lv = s.level;
    let tb = s.team_bit();
    let ty = type_code(s.ty);
    let h = s.health;
    let w = s.word();
    assert((w & 1023) == h && ((w >> 10) & 7) == (ty as u16) && ((w >> 13) & 1) == tb && (w >> 14)
        == (lv as u16)) by (bit_vector)
        requires
            w == ((lv as u16) << 14) | (tb << 13) | ((ty as u16) << 10) | h,
            lv < 4,
            tb < 2,
            ty < 8,
            h < 1024,
    ;
    lemma_type_code_round_trip(s.ty);
}

/// Unpacking the packed record of any valid player state gives the state
/// back exactly: every field survives the record layout without loss.
pub proof fn lemma_player_round_trip(s: PlayerState)
    requires
        s.valid(),
    ensures
        PlayerState::unpacked(s.rec_bytes()) == s,
{
    lemma_le16_lo_hi(s.x);
    lemma_le16_lo_hi(s.y);
    lemma_le16_lo_hi(s.word());
    let t = s.team;
    let c = s.class;
    let h = s.health;
    let w = s.word();
    assert((w & 1023) == h && ((w >> 10) & 15) == (c as u16) && (w >> 14) == (t as u16))
        by (bit_vector)
        requires
            w == ((t as u16) << 14) | ((c as u16) << 10) | h,
            t < 4,
            c < 16,
            h < 1024,
    ;
}

} // verus!
