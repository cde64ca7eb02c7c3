//! Packets whose id depends on the protocol version, with the version numbers
//! of the releases whose ranges the id tables name.
use vstd::prelude::*;

use crate::error::DeserializeError;
use crate::types::Serialize;
use crate::varint::VarInt;

verus! {

pub const V1_8: i32 = 47;
pub const V1_11_2: i32 = 316;
pub const V1_12_1: i32 = 338;
pub const V1_12_2: i32 = 340;
pub const V1_13: i32 = 393;
pub const V1_13_2: i32 = 404;
pub const V1_14: i32 = 477;
pub const V1_14_4: i32 = 498;
pub const V1_15: i32 = 573;
pub const V1_15_2: i32 = 578;
pub const V1_16: i32 = 735;
pub const V1_16_5: i32 = 754;
pub const V1_17: i32 = 755;
pub const V1_17_1: i32 = 756;

/// The id of the held item change packet in protocol version `v`, for the
/// versions that have one.
pub open spec fn held_item_change_id(v: i32) -> Option<i32> {
    if V1_8 <= v <= V1_11_2 {
        Some(0x37)
    } else if V1_12_1 <= v <= V1_12_2 {
        Some(0x3a)
    } else if V1_13 <= v <= V1_13_2 {
        Some(0x3d)
    } else if V1_14 <= v <= V1_14_4 {
        Some(0x3f)
    } else if V1_15 <= v <= V1_15_2 {
        Some(0x40)
    } else if V1_16 <= v <= V1_16_5 {
        Some(0x3f)
    } else if V1_17 <= v <= V1_17_1 {
        Some(0x48)
    } else {
        None
    }
}

/// Tells the client which hotbar slot is selected.
#[derive(Debug, Clone, Copy, PartialEq, Eq, Structural)]
pub struct HeldItemChange {
    /// The selected slot, 0 to 8.
    pub slot: i8,
}

impl HeldItemChange {
    /// A held item change selecting `slot`.
    pub fn new(slot: i8) -> (r: HeldItemChange)
        ensures
            r.slot == slot,
    {
        HeldItemChange { slot }
    }

    /// The packet id in protocol version `version`.
    pub fn id(version: i32) -> (r: i32)
        requires
            held_item_change_id(version) is Some,
        ensures
            held_item_change_id(version) == Some(r),
    {
        if V1_8 <= version && version <= V1_11_2 {
            0x37
        } else if V1_12_1 <= version && version <= V1_12_2 {
            0x3a
        } else if V1_13 <= version && version <= V1_13_2 {
            0x3d
        } else if V1_14 <= version && version <= V1_14_4 {
            0x3f
        } else if V1_15 <= version && version <= V1_15_2 {
            0x40
        } else if V1_16 <= version && version <= V1_16_5 {
            0x3f
        } else {
            0x48
        }
    }
}

impl Serialize for HeldItemChange {
    type Model = i8;

    open spec fn self_delimited() -> bool {
        true
    }

    open spec fn model(&self) -> i8 {
        self.slot
    }

    open spec fn valid(m: i8) -> bool {
        true
    }

    open spec fn encode(m: i8) -> Seq<u8> {
        <i8 as Serialize>::encode(m)
    }

    open spec fn parse(s: Seq<u8>) -> Result<(i8, nat), DeserializeError> {
        <i8 as Serialize>::parse(s)
    }

    fn serialize(&self, buf: &mut Vec<u8>) {
        self.slot.serialize(buf);
    }

    fn deserialize(buf: &[u8], pos: usize) -> (r: Result<(HeldItemChange, usize), DeserializeError>) {
        match <i8 as Serialize>::deserialize(buf, pos) {
            Ok((slot, p)) => Ok((HeldItemChange { slot }, p)),
            Err(e) => Err(e),
        }
    }

    proof fn lemma_round_trip(m: i8, rest: Seq<u8>) {
        <i8 as Serialize>::lemma_round_trip(m, rest);
    }

    proof fn lemma_parse_len(s: Seq<u8>) {
    }
}

/// The kinds of world generation.
#[derive(Debug, Clone, Copy, PartialEq, Eq, Structural)]
pub enum LevelType {
    Default,
    Flat,
    LargeBiomes,
    Amplified,
    Customized,
    Buffet,
    Default11,
}

impl LevelType {
    /// The name of the level type on the wire.
    pub open spec fn spec_name(self) -> Seq<char> {
        match self {
            LevelType::Default => "default"@,
            LevelType::Flat => "flat"@,
            LevelType::LargeBiomes => "largeBiomes"@,
            LevelType::Amplified => "amplified"@,
            LevelType::Customized => "customized"@,
            LevelType::Buffet => "buffet"@,
            LevelType::Default11 => "default_1_1"@,
        }
    }

    /// The name of the level type on the wire.
    pub fn to_string(&self) -> (r: String)
        ensures
            r@ == self.spec_name(),
    {
        let s: &str = match self {
            LevelType::Default => "default",
            LevelType::Flat => "flat",
            LevelType::LargeBiomes => "largeBiomes",
            LevelType::Amplified => "amplified",
            LevelType::Customized => "customized",
            LevelType::Buffet => "buffet",
            LevelType::Default11 => "default_1_1",
        };
        s.to_owned()
    }
}

/// The game modes.
#[derive(Debug, Clone, Copy, PartialEq, Eq, Structural)]
pub enum Gamemode {
    NoPreviousMode,
    Survival,
    Creative,
    Adventure,
    Spectator,
}

impl Gamemode {
    /// The number that stands for the game mode.
    pub fn value(&self) -> (r: i8)
        ensures
            r == (match self {
                Gamemode::NoPreviousMode => -1i8,
                Gamemode::Survival => 0i8,
                Gamemode::Creative => 1i8,
                Gamemode::Adventure => 2i8,
                Gamemode::Spectator => 3i8,
            }),
    {
        match self {
            Gamemode::NoPreviousMode => -1,
            Gamemode::Survival => 0,
            Gamemode::Creative => 1,
            Gamemode::Adventure => 2,
            Gamemode::Spectator => 3,
        }
    }
}

/// The dimensions of the older protocol versions.
#[derive(Debug, Clone, Copy, PartialEq, Eq, Structural)]
pub enum Dimension {
    Nether,
    Overworld,
    End,
}

impl Dimension {
    /// The number that stands for the dimension.
    pub fn value(&self) -> (r: i32)
        ensures
            r == (match self {
                Dimension::Nether => -1i32,
                Dimension::Overworld => 0i32,
                Dimension::End => 1i32,
            }),
    {
        match self {
            Dimension::Nether => -1,
            Dimension::Overworld => 0,
            Dimension::End => 1,
        }
    }
}

/// Joins the player to the game, for protocol version 477 and above.
#[derive(Debug, Clone)]
pub struct JoinGame {
    pub entity_id: i32,
    /// 0 survival, 1 creative, 2 adventure, 3 spectator; bit 3 marks hardcore.
    pub gamemode: u8,
    /// -1 the nether, 0 the overworld, 1 the end.
    pub dimension: i32,
    pub max_players: u8,
    pub level_type: String,
    pub view_distance: VarInt,
    pub reduced_debug_info: bool,
}

impl JoinGame {
    /// A join game packet; the level type goes on the wire by its name.
    pub fn new(
        entity_id: i32,
        gamemode: u8,
        dimension: i32,
        max_players: u8,
        level_type: LevelType,
        view_distance: VarInt,
        reduced_debug_info: bool,
    ) -> (r: JoinGame)
        ensures
            r.entity_id == entity_id,
            r.gamemode == gamemode,
            r.dimension == dimension,
            r.max_players == max_players,
            r.level_type@ == level_type.spec_name(),
            r.view_distance == view_distance,
            r.reduced_debug_info == reduced_debug_info,
    {
        JoinGame {
            entity_id,
            gamemode,
            dimension,
            max_players,
            level_type: level_type.to_string(),
            view_distance,
            reduced_debug_info,
        }
    }

    /// The packet id in protocol version `version`.
    pub fn id(version: i32) -> (r: i32)
        ensures
            r == (if version >= V1_15 {
                0x26i32
            } else {
                0x25i32
            }),
    {
        if version >= V1_15 {
            0x26
        } else {
            0x25
        }
    }
}

/// Tells the client the difficulty, for protocol version 464 and above.
#[derive(Debug, Clone, Copy, PartialEq, Eq, Structural)]
pub struct ServerDifficulty {
    /// 0 peaceful, 1 easy, 2 normal, 3 hard.
    pub difficulty: u8,
    pub difficulty_locked: bool,
}

impl ServerDifficulty {
    /// A server difficulty packet.
    pub fn new(difficulty: u8, difficulty_locked: bool) -> (r: ServerDifficulty)
        ensures
            r.difficulty == difficulty,
            r.difficulty_locked == difficulty_locked,
    {
        ServerDifficulty { difficulty, difficulty_locked }
    }

    /// The packet id in protocol version `version`.
    pub fn id(version: i32) -> (r: i32)
        ensures
            r == (if version <= V1_14_4 {
                0x0di32
            } else {
                0x0ei32
            }),
    {
        if version <= V1_14_4 {
            0x0d
        } else {
            0x0e
        }
    }
}

/// Music settings of a biome.
#[derive(Debug, Clone)]
pub struct BiomeMusicProperties {
    pub replace_current_music: i8,
    pub sound: String,
    pub max_delay: i32,
    pub min_delay: i32,
}

/// The particle kind of a biome.
#[derive(Debug, Clone)]
pub struct BiomeParticleOptions {
    pub particle_type: String,
}

/// A sequence written as its `VarInt` element count, then its elements.
#[derive(Debug, Clone)]
pub struct LengthPrefixedVec<T>(pub Vec<T>);

impl<T> LengthPrefixedVec<T> {
    /// The sequence `t`.
    pub fn new(t: Vec<T>) -> (r: LengthPrefixedVec<T>)
        ensures
            r.0@ == t@,
    {
        LengthPrefixedVec(t)
    }
}

impl<T: Serialize> Serialize for LengthPrefixedVec<T> {
    type Model = Seq<T::Model>;

    open spec fn self_delimited() -> bool {
        true
    }

    open spec fn model(&self) -> Seq<T::Model> {
        self.0.model()
    }

    open spec fn valid(m: Seq<T::Model>) -> bool {
        <Vec<T> as Serialize>::valid(m)
    }

    open spec fn encode(m: Seq<T::Model>) -> Seq<u8> {
        <Vec<T> as Serialize>::encode(m)
    }

    open spec fn parse(s: Seq<u8>) -> Result<(Seq<T::Model>, nat), DeserializeError> {
        <Vec<T> as Serialize>::parse(s)
    }

    fn serialize(&self, buf: &mut Vec<u8>) {
        self.0.serialize(buf);
    }

    fn deserialize(buf: &[u8], pos: usize) -> (r: Result<(LengthPrefixedVec<T>, usize), DeserializeError>) {
        match <Vec<T> as Serialize>::deserialize(buf, pos) {
            Ok((v, p)) => Ok((LengthPrefixedVec(v), p)),
            Err(e) => Err(e),
        }
    }

    proof fn lemma_round_trip(m: Seq<T::Model>, rest: Seq<u8>) {
        <Vec<T> as Serialize>::lemma_round_trip(m, rest);
    }

    proof fn lemma_parse_len(s: Seq<u8>) {
        <Vec<T> as Serialize>::lemma_parse_len(s);
    }
}

/// A value carried as an NBT document.
#[derive(Debug, Clone)]
pub struct Nbt<T>(pub T);

impl<T> Nbt<T> {
    /// The value `t`.
    pub fn new(t: T) -> (r: Nbt<T>)
        ensures
            r.0 == t,
    {
        Nbt(t)
    }
}

} // verus!
