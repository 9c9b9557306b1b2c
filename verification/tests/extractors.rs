use bptimer_core::combat::extract_combat_events_from_aoi_delta;
use bptimer_core::combat::DAMAGE_TYPE_HEAL;
use bptimer_core::combat::DAMAGE_TYPE_MISS;
use bptimer_core::events::CombatEvent;
use bptimer_core::events::EntityType;
use bptimer_core::events::F32_NEG_INFINITY_BITS;
use bptimer_core::extract::process_sync_container_data;
use bptimer_core::extract::process_sync_near_delta;
use bptimer_core::extract::process_sync_near_entities;
use bptimer_core::extract::process_sync_to_me_delta;
use bptimer_core::extract::process_method_payload;
use bptimer_core::extract::MethodPayload;
use bptimer_core::extract::EntityUuidRegistry;
use bptimer_core::extract::ENTITY_TYPE_CHAR;
use bptimer_core::extract::ENTITY_TYPE_MONSTER;
use bptimer_core::messages::AoiSyncDelta;
use bptimer_core::messages::AoiSyncToMeDelta;
use bptimer_core::messages::Attr;
use bptimer_core::messages::AttrCollection;
use bptimer_core::messages::CharBase;
use bptimer_core::messages::DamageInfo;
use bptimer_core::messages::Entity;
use bptimer_core::messages::SceneData;
use bptimer_core::messages::SkillEffects;
use bptimer_core::messages::SyncContainerData;
use bptimer_core::messages::SyncNearDeltaInfo;
use bptimer_core::messages::SyncNearEntities;
use bptimer_core::messages::SyncToMeDeltaInfo;
use bptimer_core::messages::VData;

fn player_uuid(uid: i64) -> i64 {
    (uid << 16) | 640
}

fn monster_uuid(n: i64) -> i64 {
    (n << 16) | 64
}

fn varint_bytes(mut v: u64) -> Vec<u8> {
    let mut out = Vec::new();
    loop {
        let b = (v & 0x7F) as u8;
        v >>= 7;
        if v == 0 {
            out.push(b);
            break;
        }
        out.push(b | 0x80);
    }
    out
}

fn attr(id: i32, raw: Vec<u8>) -> Attr {
    Attr { id, raw_data: raw }
}

fn position_attr(x: f32, y: f32, z: f32) -> Attr {
    let mut raw = vec![0x0D];
    raw.extend_from_slice(&x.to_bits().to_le_bytes());
    raw.push(0x15);
    raw.extend_from_slice(&y.to_bits().to_le_bytes());
    raw.push(0x1D);
    raw.extend_from_slice(&z.to_bits().to_le_bytes());
    attr(52, raw)
}

fn base_damage(target_is_player: bool) -> (DamageInfo, i64) {
    let rec = DamageInfo {
        owner_id: 99,
        attacker_uuid: monster_uuid(4),
        top_summoner_id: 0,
        value: 100,
        lucky_value: 0,
        hp_lessen_value: 0,
        damage_type: 0,
        type_flag: 0,
        is_miss: false,
        is_dead: false,
    };
    let target = if target_is_player { player_uuid(42) } else { monster_uuid(9) };
    (rec, target)
}

fn delta_with(rec: DamageInfo, target: i64) -> AoiSyncDelta {
    AoiSyncDelta {
        uuid: target,
        attrs: None,
        skill_effects: Some(SkillEffects { damages: vec![rec] }),
    }
}

#[test]
fn miss_on_player_yields_one_zero_loss_damage_taken() {
    let (mut rec, target) = base_damage(true);
    rec.is_miss = true;
    rec.hp_lessen_value = 55;
    let events = extract_combat_events_from_aoi_delta(&delta_with(rec, target));
    assert_eq!(events.len(), 1);
    match &events[0] {
        CombatEvent::DamageTaken(h) => {
            assert_eq!(h.player_uid, 42);
            assert_eq!(h.hp_lessen, 0);
            assert!(h.is_miss);
            assert!(!h.is_dead);
        }
        other => panic!("unexpected event: {:?}", other),
    }
}

#[test]
fn miss_type_counts_as_miss_even_without_the_flag() {
    let (mut rec, target) = base_damage(true);
    rec.damage_type = DAMAGE_TYPE_MISS;
    let events = extract_combat_events_from_aoi_delta(&delta_with(rec, target));
    assert_eq!(events.len(), 1);
    assert!(matches!(&events[0], CombatEvent::DamageTaken(h) if h.is_miss && h.hp_lessen == 0));
}

#[test]
fn heal_between_players_yields_one_healing() {
    let (mut rec, target) = base_damage(true);
    rec.damage_type = DAMAGE_TYPE_HEAL;
    rec.attacker_uuid = player_uuid(7);
    rec.value = 321;
    let events = extract_combat_events_from_aoi_delta(&delta_with(rec, target));
    assert_eq!(events.len(), 1);
    match &events[0] {
        CombatEvent::Healing(h) => {
            assert_eq!(h.player_uid, 7);
            assert_eq!(h.healing, 321);
            assert!(!h.is_crit);
            assert!(!h.is_lucky);
        }
        other => panic!("unexpected event: {:?}", other),
    }
}

#[test]
fn heal_on_monster_target_yields_nothing() {
    let (mut rec, target) = base_damage(false);
    rec.damage_type = DAMAGE_TYPE_HEAL;
    rec.attacker_uuid = player_uuid(7);
    let events = extract_combat_events_from_aoi_delta(&delta_with(rec, target));
    assert!(events.is_empty());
}

#[test]
fn lucky_value_overrides_the_base_value() {
    let (mut rec, target) = base_damage(false);
    rec.attacker_uuid = player_uuid(7);
    rec.lucky_value = 777;
    rec.value = 100;
    let events = extract_combat_events_from_aoi_delta(&delta_with(rec, target));
    assert_eq!(events.len(), 1);
    match &events[0] {
        CombatEvent::Damage(h) => {
            assert_eq!(h.player_uid, 7);
            assert_eq!(h.damage, 777);
            assert!(h.is_lucky);
            assert!(!h.is_crit);
        }
        other => panic!("unexpected event: {:?}", other),
    }
}

#[test]
fn summoner_is_preferred_over_raw_attacker() {
    let (mut rec, target) = base_damage(false);
    rec.attacker_uuid = monster_uuid(4);
    rec.top_summoner_id = player_uuid(12);
    let events = extract_combat_events_from_aoi_delta(&delta_with(rec, target));
    assert_eq!(events.len(), 1);
    assert!(matches!(&events[0], CombatEvent::Damage(h) if h.player_uid == 12));
}

#[test]
fn crit_flag_is_bit_zero_of_the_type_flag() {
    let (mut rec, target) = base_damage(false);
    rec.attacker_uuid = player_uuid(7);
    rec.type_flag = 1;
    let events = extract_combat_events_from_aoi_delta(&delta_with(rec, target));
    assert!(matches!(&events[0], CombatEvent::Damage(h) if h.is_crit));
}

#[test]
fn player_hit_by_player_yields_damage_and_damage_taken() {
    let (mut rec, target) = base_damage(true);
    rec.attacker_uuid = player_uuid(7);
    rec.hp_lessen_value = 80;
    rec.is_dead = true;
    let events = extract_combat_events_from_aoi_delta(&delta_with(rec, target));
    assert_eq!(events.len(), 2);
    assert!(matches!(&events[0], CombatEvent::Damage(h) if h.player_uid == 7 && h.damage == 100));
    assert!(matches!(
        &events[1],
        CombatEvent::DamageTaken(h) if h.player_uid == 42 && h.hp_lessen == 80 && h.is_dead
    ));
}

#[test]
fn damage_taken_falls_back_to_the_damage_value() {
    let (mut rec, target) = base_damage(true);
    rec.attacker_uuid = monster_uuid(4);
    rec.hp_lessen_value = 0;
    let events = extract_combat_events_from_aoi_delta(&delta_with(rec, target));
    assert_eq!(events.len(), 1);
    assert!(matches!(&events[0], CombatEvent::DamageTaken(h) if h.hp_lessen == 100));
}

#[test]
fn zero_skill_id_records_are_skipped() {
    let (mut rec, target) = base_damage(true);
    rec.owner_id = 0;
    rec.is_miss = true;
    let events = extract_combat_events_from_aoi_delta(&delta_with(rec, target));
    assert!(events.is_empty());
}

#[test]
fn near_delta_registers_identity_and_emits_tracked_position() {
    let mut registry = EntityUuidRegistry::new();
    let uuid = monster_uuid(400);
    let delta = AoiSyncDelta {
        uuid,
        attrs: Some(AttrCollection {
            attrs: vec![
                attr(0x0A, varint_bytes(10007)),
                position_attr(12.5, 3.0, -8.25),
                attr(0x2C2E, varint_bytes(500)),
                attr(0x2C38, varint_bytes(1000)),
            ],
        }),
        skill_effects: None,
    };
    let info = SyncNearDeltaInfo { delta_infos: vec![delta] };
    let events = process_sync_near_delta(&info, &mut registry);
    assert_eq!(registry.lookup(uuid), Some(10007));
    assert_eq!(events.len(), 1);
    match &events[0] {
        CombatEvent::EntityPosition(u) => {
            assert_eq!(u.uuid, uuid);
            assert_eq!(u.entity_type, EntityType::Monster);
            assert_eq!(u.mob_base_id, Some(10007));
            assert_eq!(u.position.x_bits, 12.5f32.to_bits());
            assert_eq!(u.position.z_bits, (-8.25f32).to_bits());
            assert_eq!(u.current_hp, Some(500));
            assert_eq!(u.max_hp, Some(1000));
        }
        other => panic!("unexpected event: {:?}", other),
    }
}

#[test]
fn hp_only_update_uses_the_sentinel_position() {
    let mut registry = EntityUuidRegistry::new();
    let uuid = monster_uuid(401);
    registry.register(uuid, 10009);
    let delta = AoiSyncDelta {
        uuid,
        attrs: Some(AttrCollection {
            attrs: vec![attr(0x2C2E, varint_bytes(250))],
        }),
        skill_effects: None,
    };
    let info = SyncNearDeltaInfo { delta_infos: vec![delta] };
    let events = process_sync_near_delta(&info, &mut registry);
    assert_eq!(events.len(), 1);
    match &events[0] {
        CombatEvent::EntityPosition(u) => {
            assert_eq!(u.position.x_bits, F32_NEG_INFINITY_BITS);
            assert_eq!(u.position.y_bits, F32_NEG_INFINITY_BITS);
            assert_eq!(u.position.z_bits, F32_NEG_INFINITY_BITS);
            assert_eq!(u.current_hp, Some(250));
            assert_eq!(u.max_hp, None);
        }
        other => panic!("unexpected event: {:?}", other),
    }
}

#[test]
fn untracked_monster_yields_no_position_event() {
    let mut registry = EntityUuidRegistry::new();
    let uuid = monster_uuid(402);
    let delta = AoiSyncDelta {
        uuid,
        attrs: Some(AttrCollection {
            attrs: vec![attr(0x0A, varint_bytes(123)), position_attr(1.0, 2.0, 3.0)],
        }),
        skill_effects: None,
    };
    let info = SyncNearDeltaInfo { delta_infos: vec![delta] };
    let events = process_sync_near_delta(&info, &mut registry);
    assert!(events.is_empty());
    assert_eq!(registry.lookup(uuid), Some(123));
}

#[test]
fn out_of_bounds_position_is_rejected() {
    let mut registry = EntityUuidRegistry::new();
    let uuid = monster_uuid(403);
    let delta = AoiSyncDelta {
        uuid,
        attrs: Some(AttrCollection {
            attrs: vec![attr(0x0A, varint_bytes(10007)), position_attr(250000.0, 0.0, 1.0)],
        }),
        skill_effects: None,
    };
    let info = SyncNearDeltaInfo { delta_infos: vec![delta] };
    let events = process_sync_near_delta(&info, &mut registry);
    assert!(events.is_empty());
}

#[test]
fn appearing_player_yields_name_and_position() {
    let mut registry = EntityUuidRegistry::new();
    let uuid = player_uuid(42);
    let mut name_raw = vec![4u8];
    name_raw.extend_from_slice(b"Hero");
    let entity = Entity {
        uuid,
        ent_type: ENTITY_TYPE_CHAR,
        attrs: Some(AttrCollection {
            attrs: vec![attr(0x01, name_raw), position_attr(5.0, 6.0, 7.0)],
        }),
    };
    let info = SyncNearEntities { appear: vec![entity] };
    let events = process_sync_near_entities(&info, &mut registry);
    assert_eq!(events.len(), 2);
    match &events[0] {
        CombatEvent::PlayerName(u) => {
            assert_eq!(u.player_uid, 42);
            assert_eq!(u.name, "Hero");
        }
        other => panic!("unexpected event: {:?}", other),
    }
    match &events[1] {
        CombatEvent::EntityPosition(u) => {
            assert_eq!(u.entity_type, EntityType::Player);
            assert_eq!(u.mob_base_id, None);
            assert_eq!(u.position.y_bits, 6.0f32.to_bits());
        }
        other => panic!("unexpected event: {:?}", other),
    }
}

#[test]
fn appearing_monster_without_identity_derives_a_pseudo_id() {
    let mut registry = EntityUuidRegistry::new();
    let uuid = (10902i64 << 16) | 64;
    let entity = Entity {
        uuid,
        ent_type: ENTITY_TYPE_MONSTER,
        attrs: Some(AttrCollection { attrs: vec![position_attr(1.0, 2.0, 3.0)] }),
    };
    let info = SyncNearEntities { appear: vec![entity] };
    let events = process_sync_near_entities(&info, &mut registry);
    assert_eq!(registry.lookup(uuid), Some(10902));
    assert_eq!(events.len(), 1);
    assert!(matches!(
        &events[0],
        CombatEvent::EntityPosition(u) if u.mob_base_id == Some(10902)
    ));
}

#[test]
fn to_me_delta_yields_local_position_and_combat_events() {
    let (mut rec, target) = base_damage(true);
    rec.attacker_uuid = player_uuid(7);
    let base_delta = AoiSyncDelta {
        uuid: target,
        attrs: Some(AttrCollection { attrs: vec![position_attr(9.0, 8.0, 7.0)] }),
        skill_effects: Some(SkillEffects { damages: vec![rec] }),
    };
    let info = SyncToMeDeltaInfo {
        delta_info: Some(AoiSyncToMeDelta { uuid: target, base_delta: Some(base_delta) }),
    };
    let events = process_sync_to_me_delta(&info);
    assert_eq!(events.len(), 3);
    assert!(matches!(&events[0], CombatEvent::LocalPlayerPosition(_)));
    assert!(matches!(&events[1], CombatEvent::Damage(_)));
    assert!(matches!(&events[2], CombatEvent::DamageTaken(_)));
}

#[test]
fn container_data_yields_identity_and_line_events() {
    let sync = SyncContainerData {
        v_data: Some(VData {
            char_id: 42,
            char_base: Some(CharBase {
                name: String::from("Hero"),
                account_id: String::from("4_abc"),
            }),
            scene_data: Some(SceneData { line_id: 3 }),
            item_package: None,
            mod_data: None,
        }),
    };
    let events = process_sync_container_data(&sync);
    assert_eq!(events.len(), 3);
    assert!(matches!(&events[0], CombatEvent::PlayerName(u) if u.name == "Hero"));
    assert!(matches!(
        &events[1],
        CombatEvent::PlayerAccountInfo(u) if u.account_id == "4_abc" && u.uid == 42
    ));
    assert!(matches!(&events[2], CombatEvent::PlayerLineInfo(u) if u.line_id == 3));
}

#[test]
fn container_data_with_zero_player_id_yields_nothing() {
    let sync = SyncContainerData {
        v_data: Some(VData {
            char_id: 0,
            char_base: Some(CharBase {
                name: String::from("Hero"),
                account_id: String::from("4_abc"),
            }),
            scene_data: Some(SceneData { line_id: 3 }),
            item_package: None,
            mod_data: None,
        }),
    };
    assert!(process_sync_container_data(&sync).is_empty());
}

#[test]
fn method_payload_dispatch_routes_to_the_extractors() {
    let mut registry = EntityUuidRegistry::new();
    let uuid = monster_uuid(700);
    let delta = AoiSyncDelta {
        uuid,
        attrs: Some(AttrCollection { attrs: vec![attr(0x0A, varint_bytes(10029))] }),
        skill_effects: None,
    };
    let payload = MethodPayload::NearDelta(SyncNearDeltaInfo { delta_infos: vec![delta] });
    let events = process_method_payload(&payload, &mut registry);
    assert!(events.is_empty());
    assert_eq!(registry.lookup(uuid), Some(10029));
    let none = process_method_payload(&MethodPayload::ContainerDirtyData, &mut registry);
    assert!(none.is_empty());
    let none = process_method_payload(&MethodPayload::ServerTime, &mut registry);
    assert!(none.is_empty());
}

#[test]
fn registry_clear_forgets_everything() {
    let mut registry = EntityUuidRegistry::new();
    registry.register(1, 10);
    registry.register(2, 20);
    assert_eq!(registry.lookup(1), Some(10));
    registry.register(1, 11);
    assert_eq!(registry.lookup(1), Some(11));
    registry.clear();
    assert_eq!(registry.lookup(1), None);
    assert_eq!(registry.lookup(2), None);
}

#[test]
fn malformed_attribute_values_are_skipped_not_fatal() {
    let mut registry = EntityUuidRegistry::new();
    let uuid = monster_uuid(800);
    // The identity attribute is a truncated varint; the delta still
    // processes, just without an identity.
    let delta = AoiSyncDelta {
        uuid,
        attrs: Some(AttrCollection { attrs: vec![attr(0x0A, vec![0x80])] }),
        skill_effects: None,
    };
    let info = SyncNearDeltaInfo { delta_infos: vec![delta] };
    let events = process_sync_near_delta(&info, &mut registry);
    assert!(events.is_empty());
    assert_eq!(registry.lookup(uuid), None);
}
