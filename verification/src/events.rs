//! The domain events the decoding pipeline emits, and their mathematical
//! models. Positions hold the raw bit patterns of IEEE-754 single-precision
//! coordinates: the pipeline never computes with them, it only checks
//! magnitude bounds and the HP-only sentinel, and both are exact bit-level
//! tests.
use vstd::prelude::*;

use crate::modules::Module;
use crate::modules::module_model;
use crate::modules::ModuleModel;

verus! {

/// Bit pattern of IEEE-754 single-precision negative infinity. A position
/// with all three coordinates equal to it signals an HP-only update.
pub const F32_NEG_INFINITY_BITS: u32 = 0xFF80_0000;

/// Bit pattern of 100000.0f32, the sanity bound on coordinate magnitude.
pub const POSITION_BOUND_BITS: u32 = 0x47C3_5000;

/// A position: the raw bit patterns of three single-precision coordinates.
#[derive(Debug, Clone, Copy, PartialEq, Eq, Structural)]
pub struct Position {
    /// Bit pattern of the x coordinate.
    pub x_bits: u32,
    /// Bit pattern of the y coordinate.
    pub y_bits: u32,
    /// Bit pattern of the z coordinate.
    pub z_bits: u32,
}

/// Whether the float with bit pattern `bits` has magnitude strictly below
/// the one with pattern `bound_bits`: for a non-negative bound this is an
/// unsigned comparison of the patterns with the sign bit cleared, and a
/// NaN (whose magnitude field exceeds every finite one) never passes.
pub open spec fn spec_abs_bits_lt(bits: u32, bound_bits: u32) -> bool {
    bits & 0x7FFF_FFFF < bound_bits
}

/// Whether the float with bit pattern `bits` has magnitude strictly below
/// the one with pattern `bound_bits`.
pub fn abs_bits_lt(bits: u32, bound_bits: u32) -> (r: bool)
    ensures
        r == spec_abs_bits_lt(bits, bound_bits),
{
    bits & 0x7FFF_FFFF < bound_bits
}

impl Position {
    /// The three coordinate bit patterns as a triple.
    pub open spec fn model(self) -> (u32, u32, u32) {
        (self.x_bits, self.y_bits, self.z_bits)
    }

    /// The sentinel position: negative infinity on all axes, meaning
    /// "HP-only update, ignore the position".
    pub open spec fn spec_sentinel() -> Position {
        Position {
            x_bits: F32_NEG_INFINITY_BITS,
            y_bits: F32_NEG_INFINITY_BITS,
            z_bits: F32_NEG_INFINITY_BITS,
        }
    }

    /// The sentinel position: negative infinity on all axes.
    pub fn sentinel() -> (r: Position)
        ensures
            r == Position::spec_sentinel(),
    {
        Position {
            x_bits: F32_NEG_INFINITY_BITS,
            y_bits: F32_NEG_INFINITY_BITS,
            z_bits: F32_NEG_INFINITY_BITS,
        }
    }

    /// Whether this is the HP-only sentinel.
    pub fn is_sentinel(&self) -> (r: bool)
        ensures
            r == (*self == Position::spec_sentinel()),
    {
        self.x_bits == F32_NEG_INFINITY_BITS && self.y_bits == F32_NEG_INFINITY_BITS
            && self.z_bits == F32_NEG_INFINITY_BITS
    }
}

/// Whether an entity is a player character or a monster.
#[derive(Debug, Clone, Copy, PartialEq, Eq, Structural)]
pub enum EntityType {
    /// A player character.
    Player,
    /// A monster.
    Monster,
}

/// One damage hit dealt by a player.
#[derive(Debug, Clone, Copy, PartialEq, Eq, Structural)]
pub struct DamageHit {
    /// The attacking player's numeric id.
    pub player_uid: i64,
    /// The damage magnitude.
    pub damage: i64,
    /// Whether the hit was critical.
    pub is_crit: bool,
    /// Whether the hit was lucky.
    pub is_lucky: bool,
}

/// One healing hit dealt by a player to a player.
#[derive(Debug, Clone, Copy, PartialEq, Eq, Structural)]
pub struct HealingHit {
    /// The healing player's numeric id.
    pub player_uid: i64,
    /// The healing magnitude.
    pub healing: i64,
    /// Whether the heal was critical.
    pub is_crit: bool,
    /// Whether the heal was lucky.
    pub is_lucky: bool,
}

/// One hit taken by a player.
#[derive(Debug, Clone, Copy, PartialEq, Eq, Structural)]
pub struct DamageTakenHit {
    /// The hit player's numeric id.
    pub player_uid: i64,
    /// The actual HP reduction; zero for a miss.
    pub hp_lessen: i64,
    /// Whether the hit missed.
    pub is_miss: bool,
    /// Whether the hit killed the player.
    pub is_dead: bool,
}

/// A player's name became known.
#[derive(Debug, Clone)]
pub struct PlayerNameUpdate {
    /// The player's numeric id.
    pub player_uid: i64,
    /// The player's name.
    pub name: String,
}

/// An entity's position (or, with the sentinel position, only its HP)
/// changed.
#[derive(Debug, Clone)]
pub struct EntityPositionUpdate {
    /// The entity's ephemeral id.
    pub uuid: i64,
    /// Whether the entity is a player or a monster.
    pub entity_type: EntityType,
    /// The position, or the sentinel for an HP-only update.
    pub position: Position,
    /// The monster's stable base id; never set for players.
    pub mob_base_id: Option<u32>,
    /// Current HP, when carried by the update.
    pub current_hp: Option<u64>,
    /// Maximum HP, when carried by the update.
    pub max_hp: Option<u64>,
}

/// The local player moved.
#[derive(Debug, Clone)]
pub struct LocalPlayerPositionUpdate {
    /// The new position.
    pub position: Position,
}

/// A new conversation was accepted as the game server.
#[derive(Debug, Clone)]
pub struct ServerChangeUpdate {
    /// The server endpoint, rendered as text.
    pub server_endpoint: String,
}

/// The local player's account identity became known.
#[derive(Debug, Clone)]
pub struct PlayerAccountInfoUpdate {
    /// The account identifier.
    pub account_id: String,
    /// The player's numeric id.
    pub uid: i64,
}

/// The local player's server line (shard) became known.
#[derive(Debug, Clone, Copy, PartialEq, Eq, Structural)]
pub struct PlayerLineInfoUpdate {
    /// The line number.
    pub line_id: u32,
}

/// The local player's module loadout became known.
#[derive(Debug, Clone)]
pub struct ModuleDataUpdate {
    /// The extracted modules.
    pub modules: Vec<Module>,
}

/// A player's class became known.
#[derive(Debug, Clone, Copy, PartialEq, Eq, Structural)]
pub struct PlayerClassUpdate {
    /// The player's numeric id.
    pub player_uid: i64,
    /// The class identifier.
    pub class_id: i32,
}

/// A player's ability score became known.
#[derive(Debug, Clone, Copy, PartialEq, Eq, Structural)]
pub struct PlayerAbilityScoreUpdate {
    /// The player's numeric id.
    pub player_uid: i64,
    /// The ability score.
    pub ability_score: i32,
}

/// One decoded domain event.
#[derive(Debug, Clone)]
pub enum CombatEvent {
    /// A damage hit dealt by a player.
    Damage(DamageHit),
    /// A healing hit between players.
    Healing(HealingHit),
    /// A hit taken by a player.
    DamageTaken(DamageTakenHit),
    /// A player's name.
    PlayerName(PlayerNameUpdate),
    /// A new server conversation.
    ServerChange(ServerChangeUpdate),
    /// An entity position or HP update.
    EntityPosition(EntityPositionUpdate),
    /// The local player's position.
    LocalPlayerPosition(LocalPlayerPositionUpdate),
    /// The local player's account identity.
    PlayerAccountInfo(PlayerAccountInfoUpdate),
    /// The local player's server line.
    PlayerLineInfo(PlayerLineInfoUpdate),
    /// The local player's module loadout.
    ModuleData(ModuleDataUpdate),
    /// A player's class.
    PlayerClass(PlayerClassUpdate),
    /// A player's ability score.
    PlayerAbilityScore(PlayerAbilityScoreUpdate),
}

/// The mathematical model of one domain event: strings as character
/// sequences, positions as bit-pattern triples, module lists as sequences.
#[verifier::ext_equal]
pub ghost enum CombatEventModel {
    /// A damage hit dealt by a player.
    Damage(DamageHit),
    /// A healing hit between players.
    Healing(HealingHit),
    /// A hit taken by a player.
    DamageTaken(DamageTakenHit),
    /// A player's name: (player uid, name).
    PlayerName(i64, Seq<char>),
    /// A new server conversation, rendered as text.
    ServerChange(Seq<char>),
    /// An entity position or HP update: (uuid, type, position bits, base
    /// id, current HP, max HP).
    EntityPosition(i64, EntityType, (u32, u32, u32), Option<u32>, Option<u64>, Option<u64>),
    /// The local player's position bits.
    LocalPlayerPosition((u32, u32, u32)),
    /// The local player's account identity: (account id, uid).
    PlayerAccountInfo(Seq<char>, i64),
    /// The local player's server line.
    PlayerLineInfo(u32),
    /// The local player's module loadout.
    ModuleData(Seq<ModuleModel>),
    /// A player's class.
    PlayerClass(PlayerClassUpdate),
    /// A player's ability score.
    PlayerAbilityScore(PlayerAbilityScoreUpdate),
}

/// The model of an event.
pub open spec fn event_model(e: CombatEvent) -> CombatEventModel {
    match e {
        CombatEvent::Damage(h) => CombatEventModel::Damage(h),
        CombatEvent::Healing(h) => CombatEventModel::Healing(h),
        CombatEvent::DamageTaken(h) => CombatEventModel::DamageTaken(h),
        CombatEvent::PlayerName(u) => CombatEventModel::PlayerName(u.player_uid, u.name@),
        CombatEvent::ServerChange(u) => CombatEventModel::ServerChange(u.server_endpoint@),
        CombatEvent::EntityPosition(u) => CombatEventModel::EntityPosition(
            u.uuid,
            u.entity_type,
            u.position.model(),
            u.mob_base_id,
            u.current_hp,
            u.max_hp,
        ),
        CombatEvent::LocalPlayerPosition(u) => CombatEventModel::LocalPlayerPosition(
            u.position.model(),
        ),
        CombatEvent::PlayerAccountInfo(u) => CombatEventModel::PlayerAccountInfo(
            u.account_id@,
            u.uid,
        ),
        CombatEvent::PlayerLineInfo(u) => CombatEventModel::PlayerLineInfo(u.line_id),
        CombatEvent::ModuleData(u) => CombatEventModel::ModuleData(
            u.modules@.map_values(|m: Module| module_model(m)),
        ),
        CombatEvent::PlayerClass(u) => CombatEventModel::PlayerClass(u),
        CombatEvent::PlayerAbilityScore(u) => CombatEventModel::PlayerAbilityScore(u),
    }
}

/// The models of a list of events.
pub open spec fn events_model(events: Seq<CombatEvent>) -> Seq<CombatEventModel> {
    events.map_values(|e: CombatEvent| event_model(e))
}

} // verus!
