//! Event extraction from decoded messages: the entity-id registry, typed
//! readings of attribute collections (identity, HP, position), and the
//! per-method extractors that turn deltas, appearances and container
//! snapshots into domain events.
use vstd::prelude::*;

use std::collections::HashMap;

use crate::events::POSITION_BOUND_BITS;
use crate::events::spec_abs_bits_lt;
use crate::messages::AttrCollection;
use crate::protocol::ATTR_ID_HP;
use crate::protocol::ATTR_ID_IDENTITY;
use crate::protocol::ATTR_ID_MAX_HP;
use crate::protocol::ATTR_ID_NAME;
use crate::protocol::ATTR_ID_POSITION;
use crate::varint::spec_varint64;

verus! {

/// The contents of an optional attribute collection; absent means empty.
pub open spec fn opt_attrs_model(attrs: Option<AttrCollection>) -> Seq<(i32, Seq<u8>)> {
    match attrs {
        Option::None => Seq::empty(),
        Option::Some(a) => crate::messages::attrs_model(a),
    }
}

/// Whether raw attribute bytes decode as a varint.
pub open spec fn varint_ok(b: Seq<u8>) -> bool {
    spec_varint64(b) is Ok
}

/// The varint value of raw attribute bytes.
pub open spec fn varint_val(b: Seq<u8>) -> u64 {
    spec_varint64(b)->Ok_0
}

/// Process-lifetime mapping from ephemeral entity ids to stable monster
/// base ids, populated whenever an identity attribute is observed and
/// consulted when later deltas omit it. Owned by the decoding layer;
/// cleared only when the decoder is reset.
pub struct EntityUuidRegistry {
    map: HashMap<i64, u32>,
}

impl EntityUuidRegistry {
    /// The registry's contents as a map.
    pub closed spec fn view(&self) -> Map<i64, u32> {
        self.map@
    }

    /// An empty registry.
    pub fn new() -> (r: EntityUuidRegistry)
        ensures
            r@ == Map::<i64, u32>::empty(),
    {
        EntityUuidRegistry { map: HashMap::new() }
    }

    /// Record (or refresh) the base id observed for an entity id.
    pub fn register(&mut self, uuid: i64, base_id: u32)
        ensures
            final(self)@ == old(self)@.insert(uuid, base_id),
    {
        self.map.insert(uuid, base_id);
    }

    /// The base id recorded for an entity id, if any.
    pub fn lookup(&self, uuid: i64) -> (r: Option<u32>)
        ensures
            r == if self@.contains_key(uuid) {
                Some(self@[uuid])
            } else {
                None::<u32>
            },
    {
        match self.map.get(&uuid) {
            Some(v) => Some(*v),
            None => None,
        }
    }

    /// Forget every recorded entity.
    pub fn clear(&mut self)
        ensures
            final(self)@ == Map::<i64, u32>::empty(),
    {
        self.map.clear();
    }
}

/// The little-endian 32-bit integer at position `i` of `b`.
pub open spec fn spec_le32(b: Seq<u8>, i: int) -> int
    recommends
        0 <= i && i + 4 <= b.len(),
{
    b[i] + b[i + 1] * 0x100 + b[i + 2] * 0x1_0000 + b[i + 3] * 0x100_0000
}

/// Parse a position message from position `i` on, with the coordinate bit
/// patterns read so far: each field is one tag byte for single-precision
/// field 1, 2 or 3, then four little-endian bytes; a field left out keeps
/// its zero default, and anything else fails. Gives the three coordinate
/// bit patterns.
pub open spec fn spec_parse_position_from(b: Seq<u8>, i: int, x: u32, y: u32, z: u32) -> Option<
    (u32, u32, u32),
>
    decreases b.len() - i,
    when 0 <= i
{
    if i >= b.len() {
        Some((x, y, z))
    } else if i + 5 <= b.len() {
        let tag = b[i];
        let v = spec_le32(b, i + 1) as u32;
        if tag == 0x0D {
            spec_parse_position_from(b, i + 5, v, y, z)
        } else if tag == 0x15 {
            spec_parse_position_from(b, i + 5, x, v, z)
        } else if tag == 0x1D {
            spec_parse_position_from(b, i + 5, x, y, v)
        } else {
            None
        }
    } else {
        None
    }
}

/// Parse a position message: three optional single-precision fields,
/// defaulting to zero bits.
pub open spec fn spec_parse_position(b: Seq<u8>) -> Option<(u32, u32, u32)> {
    spec_parse_position_from(b, 0, 0, 0, 0)
}

/// Parse a position message into its three coordinate bit patterns.
pub fn parse_position(data: &[u8]) -> (r: Option<(u32, u32, u32)>)
    ensures
        r == spec_parse_position(data@),
{
    let mut i: usize = 0;
    let mut x: u32 = 0;
    let mut y: u32 = 0;
    let mut z: u32 = 0;
    loop
        invariant
            i <= data@.len(),
            spec_parse_position_from(data@, i as int, x, y, z) == spec_parse_position(data@),
        ensures
            i >= data@.len(),
            spec_parse_position(data@) == Some((x, y, z)),
        decreases data@.len() - i,
    {
        if i >= data.len() {
            break ;
        }
        if data.len() - i < 5 {
            return None;
        }
        let tag = data[i];
        let v = (data[i + 1] as u32) + (data[i + 2] as u32) * 0x100 + (data[i + 3] as u32)
            * 0x1_0000 + (data[i + 4] as u32) * 0x100_0000;
        proof {
            assert(v == spec_le32(data@, i + 1) as u32);
        }
        if tag == 0x0D {
            x = v;
        } else if tag == 0x15 {
            y = v;
        } else if tag == 0x1D {
            z = v;
        } else {
            return None;
        }
        i = i + 5;
    }
    Some((x, y, z))
}

/// The first identity attribute that decodes, from position `i` on: its
/// varint value read as a 32-bit base id.
pub open spec fn spec_identity_from(attrs: Seq<(i32, Seq<u8>)>, i: int) -> Option<u32>
    decreases attrs.len() - i,
    when 0 <= i
{
    if i >= attrs.len() {
        None
    } else if attrs[i].0 == ATTR_ID_IDENTITY && varint_ok(attrs[i].1) {
        Some(((varint_val(attrs[i].1) as i32) as u32))
    } else {
        spec_identity_from(attrs, i + 1)
    }
}

/// The monster base id carried by an attribute collection, if any
/// identity attribute decodes.
pub open spec fn spec_identity_of(attrs: Option<AttrCollection>) -> Option<u32> {
    spec_identity_from(opt_attrs_model(attrs), 0)
}

/// The HP pair after reading the attributes from position `i` on, given
/// the values read so far: each decodable current-HP or max-HP attribute
/// overrides the one before it.
pub open spec fn spec_hp_from(
    attrs: Seq<(i32, Seq<u8>)>,
    i: int,
    cur: Option<u64>,
    max: Option<u64>,
) -> (Option<u64>, Option<u64>)
    decreases attrs.len() - i,
    when 0 <= i
{
    if i >= attrs.len() {
        (cur, max)
    } else {
        let cur2 = if attrs[i].0 == ATTR_ID_HP && varint_ok(attrs[i].1) {
            Some(((varint_val(attrs[i].1) as i64) as u64))
        } else {
            cur
        };
        let max2 = if attrs[i].0 == ATTR_ID_MAX_HP && varint_ok(attrs[i].1) {
            Some(((varint_val(attrs[i].1) as i64) as u64))
        } else {
            max
        };
        spec_hp_from(attrs, i + 1, cur2, max2)
    }
}

/// The (current HP, max HP) pair carried by an attribute collection.
pub open spec fn spec_hp_of(attrs: Option<AttrCollection>) -> (Option<u64>, Option<u64>) {
    spec_hp_from(opt_attrs_model(attrs), 0, None, None)
}

/// The first position attribute that parses and passes the coordinate
/// sanity bound (|x| and |z| below 100000), from position `i` on.
pub open spec fn spec_position_from(attrs: Seq<(i32, Seq<u8>)>, i: int) -> Option<(u32, u32, u32)>
    decreases attrs.len() - i,
    when 0 <= i
{
    if i >= attrs.len() {
        None
    } else if attrs[i].0 == ATTR_ID_POSITION {
        match spec_parse_position(attrs[i].1) {
            Option::Some(p) => {
                if spec_abs_bits_lt(p.0, POSITION_BOUND_BITS) && spec_abs_bits_lt(
                    p.2,
                    POSITION_BOUND_BITS,
                ) {
                    Some(p)
                } else {
                    spec_position_from(attrs, i + 1)
                }
            },
            Option::None => spec_position_from(attrs, i + 1),
        }
    } else {
        spec_position_from(attrs, i + 1)
    }
}

/// The sane position carried by an attribute collection, if any.
pub open spec fn spec_position_of(attrs: Option<AttrCollection>) -> Option<(u32, u32, u32)> {
    spec_position_from(opt_attrs_model(attrs), 0)
}

/// The monster base id carried by an attribute collection, if any
/// identity attribute decodes.
pub fn identity_from_attrs(attrs: &Option<AttrCollection>) -> (r: Option<u32>)
    ensures
        r == spec_identity_of(*attrs),
{
    let collection = match attrs {
        Some(a) => a,
        None => {
            return None;
        },
    };
    let ghost m = opt_attrs_model(*attrs);
    let n = collection.attrs.len();
    let mut i: usize = 0;
    while i < n
        invariant
            n == collection.attrs@.len(),
            i <= n,
            m == opt_attrs_model(Some(*collection)),
            *attrs == Some(*collection),
            spec_identity_from(m, i as int) == spec_identity_from(m, 0),
        decreases n - i,
    {
        proof {
            assert(m[i as int] == (collection.attrs@[i as int].id, collection.attrs@[
            i as int].raw_data@));
        }
        let attr = &collection.attrs[i];
        if attr.id == ATTR_ID_IDENTITY {
            match crate::varint::decode_protobuf_int32(attr.raw_data.as_slice()) {
                Ok(id) => {
                    return Some(
                        #[verifier::truncate]
                        (id as u32),
                    );
                },
                Err(_) => {},
            }
        }
        i += 1;
    }
    None
}

/// The (current HP, max HP) pair carried by an attribute collection;
/// either side is absent when no such attribute decodes.
pub fn extract_hp_from_attrs(attrs: &Option<AttrCollection>) -> (r: (Option<u64>, Option<u64>))
    ensures
        r == spec_hp_of(*attrs),
{
    let collection = match attrs {
        Some(a) => a,
        None => {
            return (None, None);
        },
    };
    let ghost m = opt_attrs_model(*attrs);
    let n = collection.attrs.len();
    let mut current_hp: Option<u64> = None;
    let mut max_hp: Option<u64> = None;
    let mut i: usize = 0;
    while i < n
        invariant
            n == collection.attrs@.len(),
            i <= n,
            m == opt_attrs_model(Some(*collection)),
            *attrs == Some(*collection),
            spec_hp_from(m, i as int, current_hp, max_hp) == spec_hp_from(m, 0, None, None),
        decreases n - i,
    {
        proof {
            assert(m[i as int] == (collection.attrs@[i as int].id, collection.attrs@[
            i as int].raw_data@));
        }
        let attr = &collection.attrs[i];
        if attr.id == ATTR_ID_HP {
            match crate::varint::decode_protobuf_int64(attr.raw_data.as_slice()) {
                Ok(value) => {
                    current_hp = Some(
                        #[verifier::truncate]
                        (value as u64),
                    );
                },
                Err(_) => {},
            }
        } else if attr.id == ATTR_ID_MAX_HP {
            match crate::varint::decode_protobuf_int64(attr.raw_data.as_slice()) {
                Ok(value) => {
                    max_hp = Some(
                        #[verifier::truncate]
                        (value as u64),
                    );
                },
                Err(_) => {},
            }
        }
        i += 1;
    }
    (current_hp, max_hp)
}

/// The sane position carried by an attribute collection, as coordinate
/// bit patterns, if any.
pub fn extract_position_from_attrs(attrs: &Option<AttrCollection>) -> (r: Option<(u32, u32, u32)>)
    ensures
        r == spec_position_of(*attrs),
{
    let collection = match attrs {
        Some(a) => a,
        None => {
            return None;
        },
    };
    let ghost m = opt_attrs_model(*attrs);
    let n = collection.attrs.len();
    let mut i: usize = 0;
    while i < n
        invariant
            n == collection.attrs@.len(),
            i <= n,
            m == opt_attrs_model(Some(*collection)),
            *attrs == Some(*collection),
            spec_position_from(m, i as int) == spec_position_from(m, 0),
        decreases n - i,
    {
        proof {
            assert(m[i as int] == (collection.attrs@[i as int].id, collection.attrs@[
            i as int].raw_data@));
        }
        let attr = &collection.attrs[i];
        if attr.id == ATTR_ID_POSITION {
            match parse_position(attr.raw_data.as_slice()) {
                Some(p) => {
                    if crate::events::abs_bits_lt(p.0, POSITION_BOUND_BITS)
                        && crate::events::abs_bits_lt(p.2, POSITION_BOUND_BITS) {
                        return Some(p);
                    }
                },
                None => {},
            }
        }
        i += 1;
    }
    None
}

/// The entity-type discriminant of a player character in appearance
/// messages.
pub const ENTITY_TYPE_CHAR: i32 = 640;

/// The entity-type discriminant of a monster in appearance messages.
pub const ENTITY_TYPE_MONSTER: i32 = 64;

/// What one entity delta does to the registry and which events it
/// yields: an identity attribute registers (or refreshes) the base id,
/// otherwise the registry answers; with a known base id of a tracked
/// monster, a sane position (or, failing that, any HP reading, with the
/// sentinel position) yields an `EntityPosition` event; and the delta's
/// damage records yield their combat events.
pub open spec fn spec_near_delta_step(delta: crate::messages::AoiSyncDelta, reg: Map<i64, u32>) -> (
    Map<i64, u32>,
    Seq<crate::events::CombatEventModel>,
) {
    let identity = spec_identity_of(delta.attrs);
    let reg2 = if identity is Some {
        reg.insert(delta.uuid, identity->0)
    } else {
        reg
    };
    let base_id = if identity is Some {
        identity
    } else if reg.contains_key(delta.uuid) {
        Some(reg[delta.uuid])
    } else {
        None
    };
    let pos_events = match base_id {
        Option::None => Seq::empty(),
        Option::Some(bid) => {
            if delta.attrs is Some && crate::mobs::spec_is_location_tracked_mob(bid) {
                let pos = spec_position_of(delta.attrs);
                let hp = spec_hp_of(delta.attrs);
                match pos {
                    Option::Some(p) => seq![
                        crate::events::CombatEventModel::EntityPosition(
                            delta.uuid,
                            crate::events::EntityType::Monster,
                            p,
                            Some(bid),
                            hp.0,
                            hp.1,
                        ),
                    ],
                    Option::None => {
                        if hp.0 is Some || hp.1 is Some {
                            seq![
                                crate::events::CombatEventModel::EntityPosition(
                                    delta.uuid,
                                    crate::events::EntityType::Monster,
                                    crate::events::Position::spec_sentinel().model(),
                                    Some(bid),
                                    hp.0,
                                    hp.1,
                                ),
                            ]
                        } else {
                            Seq::empty()
                        }
                    },
                }
            } else {
                Seq::empty()
            }
        },
    };
    (reg2, pos_events + crate::combat::spec_combat_events_of_delta(delta))
}

/// The registry and events after processing the deltas from position `i`
/// on.
pub open spec fn spec_near_deltas_from(
    deltas: Seq<crate::messages::AoiSyncDelta>,
    i: int,
    reg: Map<i64, u32>,
) -> (Map<i64, u32>, Seq<crate::events::CombatEventModel>)
    decreases deltas.len() - i,
    when 0 <= i
{
    if i < deltas.len() {
        let step = spec_near_delta_step(deltas[i], reg);
        let rest = spec_near_deltas_from(deltas, i + 1, step.0);
        (rest.0, step.1 + rest.1)
    } else {
        (reg, Seq::empty())
    }
}

/// Process a nearby-entity delta message: register observed identities,
/// emit position/HP updates for tracked monsters, and classify every
/// damage record.
pub fn process_sync_near_delta(
    delta_info: &crate::messages::SyncNearDeltaInfo,
    registry: &mut EntityUuidRegistry,
) -> (events: Vec<crate::events::CombatEvent>)
    ensures
        ({
            let r = spec_near_deltas_from(delta_info.delta_infos@, 0, old(registry)@);
            &&& final(registry)@ == r.0
            &&& crate::events::events_model(events@) =~= r.1
        }),
{
    let mut events: Vec<crate::events::CombatEvent> = Vec::new();
    let ghost deltas = delta_info.delta_infos@;
    let ghost target = spec_near_deltas_from(deltas, 0, registry@);
    let n = delta_info.delta_infos.len();
    let mut i: usize = 0;
    while i < n
        invariant
            n == deltas.len(),
            i <= n,
            deltas == delta_info.delta_infos@,
            target == spec_near_deltas_from(deltas, 0, old(registry)@),
            spec_near_deltas_from(deltas, i as int, registry@).0 == target.0,
            crate::events::events_model(events@) + spec_near_deltas_from(
                deltas,
                i as int,
                registry@,
            ).1 =~= target.1,
        decreases n - i,
    {
        let ghost pre_reg = registry@;
        let ghost pre_events = events@;
        let delta = &delta_info.delta_infos[i];
        let identity = identity_from_attrs(&delta.attrs);
        let base_id: Option<u32> = match identity {
            Some(id) => {
                registry.register(delta.uuid, id);
                Some(id)
            },
            None => registry.lookup(delta.uuid),
        };
        if let Some(bid) = base_id {
            if delta.attrs.is_some() && crate::mobs::is_location_tracked_mob(bid) {
                let position = extract_position_from_attrs(&delta.attrs);
                let hp = extract_hp_from_attrs(&delta.attrs);
                match position {
                    Some(p) => {
                        events.push(
                            crate::events::CombatEvent::EntityPosition(
                                crate::events::EntityPositionUpdate {
                                    uuid: delta.uuid,
                                    entity_type: crate::events::EntityType::Monster,
                                    position: crate::events::Position {
                                        x_bits: p.0,
                                        y_bits: p.1,
                                        z_bits: p.2,
                                    },
                                    mob_base_id: Some(bid),
                                    current_hp: hp.0,
                                    max_hp: hp.1,
                                },
                            ),
                        );
                    },
                    None => {
                        if hp.0.is_some() || hp.1.is_some() {
                            events.push(
                                crate::events::CombatEvent::EntityPosition(
                                    crate::events::EntityPositionUpdate {
                                        uuid: delta.uuid,
                                        entity_type: crate::events::EntityType::Monster,
                                        position: crate::events::Position::sentinel(),
                                        mob_base_id: Some(bid),
                                        current_hp: hp.0,
                                        max_hp: hp.1,
                                    },
                                ),
                            );
                        }
                    },
                }
            }
        }
        let mut combat_events = crate::combat::extract_combat_events_from_aoi_delta(delta);
        proof {
            let step = spec_near_delta_step(deltas[i as int], pre_reg);
            assert(crate::events::events_model(events@) + crate::events::events_model(
                combat_events@,
            ) =~= crate::events::events_model(pre_events) + step.1);
        }
        events.append(&mut combat_events);
        proof {
            assert(crate::events::events_model(events@) =~= crate::events::events_model(pre_events)
                + spec_near_delta_step(deltas[i as int], pre_reg).1);
        }
        i += 1;
    }
    events
}

/// The player-name events of the attributes from position `i` on: one
/// for every name attribute whose string decodes to something non-empty.
pub open spec fn spec_names_from(attrs: Seq<(i32, Seq<u8>)>, i: int, player_uid: i64) -> Seq<
    crate::events::CombatEventModel,
>
    decreases attrs.len() - i,
    when 0 <= i
{
    if i >= attrs.len() {
        Seq::empty()
    } else {
        let rest = spec_names_from(attrs, i + 1, player_uid);
        if attrs[i].0 == ATTR_ID_NAME && crate::varint::spec_decode_string(attrs[i].1) is Ok
            && crate::varint::spec_decode_string(attrs[i].1)->Ok_0.len() != 0 {
            seq![
                crate::events::CombatEventModel::PlayerName(
                    player_uid,
                    crate::varint::spec_decode_string(attrs[i].1)->Ok_0,
                ),
            ] + rest
        } else {
            rest
        }
    }
}

/// What one appearing entity does to the registry and which events it
/// yields. A player entity yields a name event per decodable non-empty
/// name attribute, then a position event when a sane position is
/// carried. A monster entity registers its base id (from its identity
/// attribute, else derived from its entity id), and a tracked one with a
/// sane position yields a position event with its HP readings.
pub open spec fn spec_entity_step(e: crate::messages::Entity, reg: Map<i64, u32>) -> (
    Map<i64, u32>,
    Seq<crate::events::CombatEventModel>,
) {
    if e.ent_type == ENTITY_TYPE_CHAR {
        let uid = crate::protocol::spec_player_uid(e.uuid);
        if uid == 0 {
            (reg, Seq::empty())
        } else {
            let names = spec_names_from(opt_attrs_model(e.attrs), 0, uid);
            let posev = match spec_position_of(e.attrs) {
                Option::Some(p) => {
                    let hp = spec_hp_of(e.attrs);
                    seq![
                        crate::events::CombatEventModel::EntityPosition(
                            e.uuid,
                            crate::events::EntityType::Player,
                            p,
                            None,
                            hp.0,
                            hp.1,
                        ),
                    ]
                },
                Option::None => Seq::empty(),
            };
            (reg, names + posev)
        }
    } else if e.ent_type == ENTITY_TYPE_MONSTER || e.ent_type == 1 {
        let base = match spec_identity_of(e.attrs) {
            Option::Some(id) => id,
            Option::None => crate::protocol::spec_player_uid(e.uuid) as u32,
        };
        if base == 0 {
            (reg, Seq::empty())
        } else {
            let reg2 = reg.insert(e.uuid, base);
            let ev = if crate::mobs::spec_is_location_tracked_mob(base) {
                match spec_position_of(e.attrs) {
                    Option::Some(p) => {
                        let hp = spec_hp_of(e.attrs);
                        seq![
                            crate::events::CombatEventModel::EntityPosition(
                                e.uuid,
                                crate::events::EntityType::Monster,
                                p,
                                Some(base),
                                hp.0,
                                hp.1,
                            ),
                        ]
                    },
                    Option::None => Seq::empty(),
                }
            } else {
                Seq::empty()
            };
            (reg2, ev)
        }
    } else {
        (reg, Seq::empty())
    }
}

/// The registry and events after processing the appearing entities from
/// position `i` on.
pub open spec fn spec_entities_from(
    entities: Seq<crate::messages::Entity>,
    i: int,
    reg: Map<i64, u32>,
) -> (Map<i64, u32>, Seq<crate::events::CombatEventModel>)
    decreases entities.len() - i,
    when 0 <= i
{
    if i < entities.len() {
        let step = spec_entity_step(entities[i], reg);
        let rest = spec_entities_from(entities, i + 1, step.0);
        (rest.0, step.1 + rest.1)
    } else {
        (reg, Seq::empty())
    }
}

/// The player-name events an entity's attributes carry.
fn push_name_events(
    attrs: &AttrCollection,
    player_uid: i64,
    events: &mut Vec<crate::events::CombatEvent>,
)
    ensures
        crate::events::events_model(final(events)@) =~= crate::events::events_model(old(events)@)
            + spec_names_from(crate::messages::attrs_model(*attrs), 0, player_uid),
{
    let ghost m = crate::messages::attrs_model(*attrs);
    let ghost events0 = events@;
    let n = attrs.attrs.len();
    let mut i: usize = 0;
    while i < n
        invariant
            n == attrs.attrs@.len(),
            i <= n,
            m == crate::messages::attrs_model(*attrs),
            crate::events::events_model(events@) + spec_names_from(m, i as int, player_uid)
                =~= crate::events::events_model(events0) + spec_names_from(m, 0, player_uid),
        decreases n - i,
    {
        proof {
            assert(m[i as int] == (attrs.attrs@[i as int].id, attrs.attrs@[i as int].raw_data@));
        }
        let attr = &attrs.attrs[i];
        if attr.id == ATTR_ID_NAME {
            match crate::varint::decode_protobuf_string(attr.raw_data.as_slice()) {
                Ok(player_name) => {
                    if !player_name.as_str().is_empty() {
                        events.push(
                            crate::events::CombatEvent::PlayerName(
                                crate::events::PlayerNameUpdate { player_uid, name: player_name },
                            ),
                        );
                    }
                },
                Err(_) => {},
            }
        }
        i += 1;
    }
}

/// Process an entity-appearance message: learn player names and monster
/// identities, and emit position events for players and tracked
/// monsters.
pub fn process_sync_near_entities(
    sync_info: &crate::messages::SyncNearEntities,
    registry: &mut EntityUuidRegistry,
) -> (events: Vec<crate::events::CombatEvent>)
    ensures
        ({
            let r = spec_entities_from(sync_info.appear@, 0, old(registry)@);
            &&& final(registry)@ == r.0
            &&& crate::events::events_model(events@) =~= r.1
        }),
{
    let mut events: Vec<crate::events::CombatEvent> = Vec::new();
    let ghost entities = sync_info.appear@;
    let ghost target = spec_entities_from(entities, 0, registry@);
    let n = sync_info.appear.len();
    let mut i: usize = 0;
    while i < n
        invariant
            n == entities.len(),
            i <= n,
            entities == sync_info.appear@,
            target == spec_entities_from(entities, 0, old(registry)@),
            spec_entities_from(entities, i as int, registry@).0 == target.0,
            crate::events::events_model(events@) + spec_entities_from(
                entities,
                i as int,
                registry@,
            ).1 =~= target.1,
        decreases n - i,
    {
        let ghost pre_reg = registry@;
        let ghost pre_events = events@;
        let ghost mut after_names = events@;
        let entity = &sync_info.appear[i];
        if entity.ent_type == ENTITY_TYPE_CHAR {
            let player_uid = crate::protocol::get_player_uid(entity.uuid);
            if player_uid != 0 {
                if let Some(attrs) = &entity.attrs {
                    push_name_events(attrs, player_uid, &mut events);
                }
                proof {
                    assert(crate::events::events_model(events@) =~= crate::events::events_model(
                        pre_events,
                    ) + spec_names_from(
                        opt_attrs_model(entities[i as int].attrs),
                        0,
                        player_uid as i64,
                    ));
                }
                proof {
                    after_names = events@;
                }
                let position = extract_position_from_attrs(&entity.attrs);
                if let Some(p) = position {
                    let hp = extract_hp_from_attrs(&entity.attrs);
                    events.push(
                        crate::events::CombatEvent::EntityPosition(
                            crate::events::EntityPositionUpdate {
                                uuid: entity.uuid,
                                entity_type: crate::events::EntityType::Player,
                                position: crate::events::Position {
                                    x_bits: p.0,
                                    y_bits: p.1,
                                    z_bits: p.2,
                                },
                                mob_base_id: None,
                                current_hp: hp.0,
                                max_hp: hp.1,
                            },
                        ),
                    );
                }
            }
        } else if entity.ent_type == ENTITY_TYPE_MONSTER || entity.ent_type == 1 {
            let monster_base_id: u32 = match identity_from_attrs(&entity.attrs) {
                Some(id) => id,
                None => {
                    let uid = crate::protocol::get_player_uid(entity.uuid);
                    #[verifier::truncate]
                    (uid as u32)
                },
            };
            if monster_base_id != 0 {
                registry.register(entity.uuid, monster_base_id);
                if crate::mobs::is_location_tracked_mob(monster_base_id) {
                    let position = extract_position_from_attrs(&entity.attrs);
                    if let Some(p) = position {
                        let hp = extract_hp_from_attrs(&entity.attrs);
                        events.push(
                            crate::events::CombatEvent::EntityPosition(
                                crate::events::EntityPositionUpdate {
                                    uuid: entity.uuid,
                                    entity_type: crate::events::EntityType::Monster,
                                    position: crate::events::Position {
                                        x_bits: p.0,
                                        y_bits: p.1,
                                        z_bits: p.2,
                                    },
                                    mob_base_id: Some(monster_base_id),
                                    current_hp: hp.0,
                                    max_hp: hp.1,
                                },
                            ),
                        );
                    }
                }
            }
        }
        proof {
            let e = entities[i as int];
            let step = spec_entity_step(e, pre_reg);
            if e.ent_type == ENTITY_TYPE_CHAR {
                let uid = crate::protocol::spec_player_uid(e.uuid);
                if uid != 0 {
                    assert(step.1 == spec_names_from(opt_attrs_model(e.attrs), 0, uid) + (
                    match spec_position_of(e.attrs) {
                        Option::Some(p) => {
                            let hp = spec_hp_of(e.attrs);
                            seq![
                                crate::events::CombatEventModel::EntityPosition(
                                    e.uuid,
                                    crate::events::EntityType::Player,
                                    p,
                                    None,
                                    hp.0,
                                    hp.1,
                                ),
                            ]
                        },
                        Option::None => Seq::empty(),
                    }));
                    if e.attrs is None {
                        assert(spec_names_from(opt_attrs_model(e.attrs), 0, uid) =~= Seq::<
                            crate::events::CombatEventModel,
                        >::empty());
                    }
                    let names = spec_names_from(opt_attrs_model(e.attrs), 0, uid);
                    let lhs = crate::events::events_model(events@);
                    let rhs = crate::events::events_model(pre_events) + step.1;
                    assert(crate::events::events_model(after_names) == crate
                        ::events::events_model(pre_events) + names);
                    assert(lhs.len() == rhs.len());
                    assert forall|k: int| 0 <= k < lhs.len() implies lhs[k] == rhs[k] by {
                        if k < after_names.len() {
                            assert(events@[k] == after_names[k]);
                            assert(lhs[k] == crate::events::event_model(after_names[k]));
                            assert(crate::events::events_model(after_names)[k]
                                == crate::events::event_model(after_names[k]));
                            assert(lhs[k] == (crate::events::events_model(pre_events) + names)[k]);
                        } else {
                            assert(k == lhs.len() - 1);
                            assert(lhs[k] == crate::events::event_model(events@.last()));
                        }
                    }
                    assert(crate::events::events_model(events@) =~= crate::events::events_model(
                        pre_events,
                    ) + step.1);
                } else {
                    assert(crate::events::events_model(events@) =~= crate::events::events_model(
                        pre_events,
                    ) + step.1);
                }
            } else {
                assert(crate::events::events_model(events@) =~= crate::events::events_model(
                    pre_events,
                ) + step.1);
            }
        }
        i += 1;
    }
    events
}

/// The events of a local-player-centric delta: the local player's sane
/// position, when carried, then the combat events of the underlying
/// delta.
pub open spec fn spec_to_me_events(info: crate::messages::SyncToMeDeltaInfo) -> Seq<
    crate::events::CombatEventModel,
> {
    match info.delta_info {
        Option::None => Seq::empty(),
        Option::Some(d) => match d.base_delta {
            Option::None => Seq::empty(),
            Option::Some(bd) => {
                let posev = match spec_position_of(bd.attrs) {
                    Option::Some(p) => seq![
                        crate::events::CombatEventModel::LocalPlayerPosition(p),
                    ],
                    Option::None => Seq::empty(),
                };
                posev + crate::combat::spec_combat_events_of_delta(bd)
            },
        },
    }
}

/// Process a local-player-centric delta message.
pub fn process_sync_to_me_delta(info: &crate::messages::SyncToMeDeltaInfo) -> (events: Vec<
    crate::events::CombatEvent,
>)
    ensures
        crate::events::events_model(events@) =~= spec_to_me_events(*info),
{
    let mut events: Vec<crate::events::CombatEvent> = Vec::new();
    let delta = match &info.delta_info {
        Some(d) => d,
        None => {
            return events;
        },
    };
    let base_delta = match &delta.base_delta {
        Some(bd) => bd,
        None => {
            return events;
        },
    };
    if let Some(p) = extract_position_from_attrs(&base_delta.attrs) {
        events.push(
            crate::events::CombatEvent::LocalPlayerPosition(
                crate::events::LocalPlayerPositionUpdate {
                    position: crate::events::Position { x_bits: p.0, y_bits: p.1, z_bits: p.2 },
                },
            ),
        );
    }
    let mut combat_events = crate::combat::extract_combat_events_from_aoi_delta(base_delta);
    let ghost pre_events = events@;
    events.append(&mut combat_events);
    proof {
        assert(crate::events::events_model(events@) =~= spec_to_me_events(*info));
    }
    events
}

/// The events of a container snapshot: with a non-zero player id, the
/// player's name and account id when non-empty, the positive line
/// number, and the module loadout when any module was extracted.
pub open spec fn spec_container_events(sync: crate::messages::SyncContainerData) -> Seq<
    crate::events::CombatEventModel,
> {
    match sync.v_data {
        Option::None => Seq::empty(),
        Option::Some(v) => {
            if v.char_id == 0 {
                Seq::empty()
            } else {
                let namev = match v.char_base {
                    Option::Some(cb) => {
                        if cb.name@.len() != 0 {
                            seq![crate::events::CombatEventModel::PlayerName(v.char_id, cb.name@)]
                        } else {
                            Seq::empty()
                        }
                    },
                    Option::None => Seq::empty(),
                };
                let accountv = match v.char_base {
                    Option::Some(cb) => {
                        if cb.account_id@.len() != 0 {
                            seq![
                                crate::events::CombatEventModel::PlayerAccountInfo(
                                    cb.account_id@,
                                    v.char_id,
                                ),
                            ]
                        } else {
                            Seq::empty()
                        }
                    },
                    Option::None => Seq::empty(),
                };
                let linev = match v.scene_data {
                    Option::Some(sd) => {
                        if sd.line_id > 0 {
                            seq![crate::events::CombatEventModel::PlayerLineInfo(sd.line_id)]
                        } else {
                            Seq::empty()
                        }
                    },
                    Option::None => Seq::empty(),
                };
                let ms = crate::modules::spec_extract_modules(sync);
                let modulev = if ms.len() != 0 {
                    seq![crate::events::CombatEventModel::ModuleData(ms)]
                } else {
                    Seq::empty()
                };
                namev + accountv + linev + modulev
            }
        },
    }
}

/// Process the local player's container snapshot.
pub fn process_sync_container_data(sync_data: &crate::messages::SyncContainerData) -> (events: Vec<
    crate::events::CombatEvent,
>)
    ensures
        crate::events::events_model(events@) =~= spec_container_events(*sync_data),
{
    let mut events: Vec<crate::events::CombatEvent> = Vec::new();
    let v_data = match &sync_data.v_data {
        Some(v) => v,
        None => {
            return events;
        },
    };
    let player_uid = v_data.char_id;
    if player_uid == 0 {
        return events;
    }
    if let Some(char_base) = &v_data.char_base {
        if !char_base.name.as_str().is_empty() {
            events.push(
                crate::events::CombatEvent::PlayerName(
                    crate::events::PlayerNameUpdate {
                        player_uid,
                        name: char_base.name.clone(),
                    },
                ),
            );
        }
        if !char_base.account_id.as_str().is_empty() {
            events.push(
                crate::events::CombatEvent::PlayerAccountInfo(
                    crate::events::PlayerAccountInfoUpdate {
                        account_id: char_base.account_id.clone(),
                        uid: player_uid,
                    },
                ),
            );
        }
    }
    if let Some(scene_data) = &v_data.scene_data {
        if scene_data.line_id > 0 {
            events.push(
                crate::events::CombatEvent::PlayerLineInfo(
                    crate::events::PlayerLineInfoUpdate { line_id: scene_data.line_id },
                ),
            );
        }
    }
    let extracted_modules = crate::modules::extract_modules(sync_data);
    if extracted_modules.len() > 0 {
        events.push(
            crate::events::CombatEvent::ModuleData(
                crate::events::ModuleDataUpdate { modules: extracted_modules },
            ),
        );
    }
    proof {
        assert(crate::events::events_model(events@) =~= spec_container_events(*sync_data));
    }
    events
}

/// One decoded method payload, ready for extraction.
#[derive(Debug, Clone)]
pub enum MethodPayload {
    /// Incremental updates to nearby entities.
    NearDelta(crate::messages::SyncNearDeltaInfo),
    /// A local-player-centric delta.
    ToMeDelta(crate::messages::SyncToMeDeltaInfo),
    /// Entities that appeared nearby.
    NearEntities(crate::messages::SyncNearEntities),
    /// The local player's container snapshot.
    ContainerData(crate::messages::SyncContainerData),
    /// A container dirty-data message; carries nothing the pipeline
    /// reads.
    ContainerDirtyData,
    /// A server-time message; carries nothing the pipeline reads.
    ServerTime,
}

/// What a method payload does to the registry and which events it
/// yields.
pub open spec fn spec_method_payload_events(p: MethodPayload, reg: Map<i64, u32>) -> (
    Map<i64, u32>,
    Seq<crate::events::CombatEventModel>,
) {
    match p {
        MethodPayload::NearDelta(info) => spec_near_deltas_from(info.delta_infos@, 0, reg),
        MethodPayload::ToMeDelta(info) => (reg, spec_to_me_events(info)),
        MethodPayload::NearEntities(info) => spec_entities_from(info.appear@, 0, reg),
        MethodPayload::ContainerData(sync) => (reg, spec_container_events(sync)),
        MethodPayload::ContainerDirtyData => (reg, Seq::empty()),
        MethodPayload::ServerTime => (reg, Seq::empty()),
    }
}

/// Process one decoded method payload: dispatch it to its extractor and
/// return the events it yields.
pub fn process_method_payload(p: &MethodPayload, registry: &mut EntityUuidRegistry) -> (events:
    Vec<crate::events::CombatEvent>)
    ensures
        ({
            let r = spec_method_payload_events(*p, old(registry)@);
            &&& final(registry)@ == r.0
            &&& crate::events::events_model(events@) =~= r.1
        }),
{
    match p {
        MethodPayload::NearDelta(info) => process_sync_near_delta(info, registry),
        MethodPayload::ToMeDelta(info) => process_sync_to_me_delta(info),
        MethodPayload::NearEntities(info) => process_sync_near_entities(info, registry),
        MethodPayload::ContainerData(sync) => process_sync_container_data(sync),
        MethodPayload::ContainerDirtyData => Vec::new(),
        MethodPayload::ServerTime => Vec::new(),
    }
}

} // verus!
