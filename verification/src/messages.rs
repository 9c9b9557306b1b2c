//! The decoded protocol-buffer messages the extractors work on, as plain
//! typed values: entity deltas with attribute collections and skill-effect
//! damage lists, entity appearances, and the local player's container
//! snapshot.
use vstd::prelude::*;

verus! {

/// One entity attribute: a numeric id and its raw (varint- or
/// message-encoded) value bytes.
#[derive(Debug, Clone)]
pub struct Attr {
    /// The attribute id.
    pub id: i32,
    /// The attribute's raw value bytes.
    pub raw_data: Vec<u8>,
}

/// An entity's attribute collection.
#[derive(Debug, Clone)]
pub struct AttrCollection {
    /// The attributes, in wire order.
    pub attrs: Vec<Attr>,
}

/// The contents of an attribute collection: (id, value bytes) pairs.
pub open spec fn attrs_model(attrs: AttrCollection) -> Seq<(i32, Seq<u8>)> {
    attrs.attrs@.map_values(|a: Attr| (a.id, a.raw_data@))
}

/// One damage record of a skill effect.
#[derive(Debug, Clone, Copy, PartialEq, Eq, Structural)]
pub struct DamageInfo {
    /// The owning skill's id; zero marks a record to skip.
    pub owner_id: i64,
    /// The raw attacker's entity id.
    pub attacker_uuid: i64,
    /// The topmost summoner's entity id, when the attacker is a summon.
    pub top_summoner_id: i64,
    /// The base damage value.
    pub value: i64,
    /// The lucky damage value; non-zero marks a lucky hit and overrides
    /// the base value.
    pub lucky_value: i64,
    /// The actual HP reduction on the target.
    pub hp_lessen_value: i64,
    /// The declared damage type.
    pub damage_type: i32,
    /// Type flags; bit 0 marks a critical hit.
    pub type_flag: u32,
    /// Whether the hit missed.
    pub is_miss: bool,
    /// Whether the hit killed the target.
    pub is_dead: bool,
}

/// The skill effects of one entity delta: its damage records.
#[derive(Debug, Clone)]
pub struct SkillEffects {
    /// The damage records, in wire order.
    pub damages: Vec<DamageInfo>,
}

/// One incremental update to an entity.
#[derive(Debug, Clone)]
pub struct AoiSyncDelta {
    /// The entity's ephemeral id.
    pub uuid: i64,
    /// The changed attributes, when any.
    pub attrs: Option<AttrCollection>,
    /// The skill effects landed on this entity, when any.
    pub skill_effects: Option<SkillEffects>,
}

/// Incremental updates to nearby entities.
#[derive(Debug, Clone)]
pub struct SyncNearDeltaInfo {
    /// One delta per updated entity.
    pub delta_infos: Vec<AoiSyncDelta>,
}

/// An incremental update centred on the local player.
#[derive(Debug, Clone)]
pub struct AoiSyncToMeDelta {
    /// The local player's entity id.
    pub uuid: i64,
    /// The underlying entity delta, when any.
    pub base_delta: Option<AoiSyncDelta>,
}

/// The local-player-centric delta message.
#[derive(Debug, Clone)]
pub struct SyncToMeDeltaInfo {
    /// The delta, when any.
    pub delta_info: Option<AoiSyncToMeDelta>,
}

/// One entity that became visible.
#[derive(Debug, Clone)]
pub struct Entity {
    /// The entity's ephemeral id.
    pub uuid: i64,
    /// The entity's numeric type discriminant.
    pub ent_type: i32,
    /// The entity's attributes, when any.
    pub attrs: Option<AttrCollection>,
}

/// Entities that appeared near the player.
#[derive(Debug, Clone)]
pub struct SyncNearEntities {
    /// The entities that became visible.
    pub appear: Vec<Entity>,
}

/// A character's base identity.
#[derive(Debug, Clone)]
pub struct CharBase {
    /// The character's name; may be empty.
    pub name: String,
    /// The account identifier; may be empty.
    pub account_id: String,
}

/// The scene the local player is in.
#[derive(Debug, Clone, Copy, PartialEq, Eq, Structural)]
pub struct SceneData {
    /// The server line (shard) number; zero when unknown.
    pub line_id: u32,
}

/// The module attribute of one inventory item.
#[derive(Debug, Clone)]
pub struct ModNewAttr {
    /// The module part ids.
    pub mod_parts: Vec<i32>,
}

/// One inventory item.
#[derive(Debug, Clone)]
pub struct Item {
    /// The item's module attribute, when it is a module.
    pub mod_new_attr: Option<ModNewAttr>,
}

/// One item of an item package, with its key.
#[derive(Debug, Clone)]
pub struct ItemEntry {
    /// The item's key within the package.
    pub key: i64,
    /// The item.
    pub item: Item,
}

/// One item package.
#[derive(Debug, Clone)]
pub struct Package {
    /// The package's items.
    pub items: Vec<ItemEntry>,
}

/// All item packages of the local player.
#[derive(Debug, Clone)]
pub struct ItemPackage {
    /// The packages.
    pub packages: Vec<Package>,
}

/// Link levels recorded for one module item.
#[derive(Debug, Clone)]
pub struct ModInfo {
    /// The link level of each module part, by position.
    pub init_link_nums: Vec<i32>,
}

/// Module info keyed by item key.
#[derive(Debug, Clone)]
pub struct ModInfoEntry {
    /// The item key.
    pub key: i64,
    /// The module info.
    pub info: ModInfo,
}

/// The module table of the local player.
#[derive(Debug, Clone)]
pub struct ModData {
    /// Module info entries, keyed by item key.
    pub mod_infos: Vec<ModInfoEntry>,
}

/// The local player's own data.
#[derive(Debug, Clone)]
pub struct VData {
    /// The player's numeric id; zero aborts extraction.
    pub char_id: i64,
    /// The character's base identity, when present.
    pub char_base: Option<CharBase>,
    /// The scene data, when present.
    pub scene_data: Option<SceneData>,
    /// The item packages, when present.
    pub item_package: Option<ItemPackage>,
    /// The module table, when present.
    pub mod_data: Option<ModData>,
}

/// The local player's full container snapshot.
#[derive(Debug, Clone)]
pub struct SyncContainerData {
    /// The player data, when present.
    pub v_data: Option<VData>,
}

} // verus!
