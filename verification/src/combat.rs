//! Classification of skill-effect damage records into combat events: the
//! fixed business rules for misses, heals, attacker attribution (summoner
//! over raw attacker) and magnitude (lucky value over base value).
use vstd::prelude::*;

use crate::events::CombatEvent;
use crate::events::CombatEventModel;
use crate::events::DamageHit;
use crate::events::DamageTakenHit;
use crate::events::HealingHit;
use crate::events::events_model;
use crate::messages::AoiSyncDelta;
use crate::messages::DamageInfo;
use crate::protocol::spec_is_player;
use crate::protocol::spec_player_uid;

verus! {

/// The damage-type value that declares a miss.
pub const DAMAGE_TYPE_MISS: i32 = 1;

/// The damage-type value that declares a heal.
pub const DAMAGE_TYPE_HEAL: i32 = 2;

/// The combat events of one damage record, applied in this order: records
/// with no owning skill or no attacker are skipped; the top summoner is
/// preferred over the raw attacker; the lucky value is preferred over the
/// base value; a miss (by type or flag) yields a zero-HP-loss
/// `DamageTaken` for a player target and nothing else; a heal yields
/// `Healing` only between players; anything else with a non-zero
/// magnitude yields `Damage` for a player attacker and `DamageTaken` for
/// a player target, the latter falling back to the damage value when no
/// positive HP loss is given.
pub open spec fn spec_events_for_damage(rec: DamageInfo, target_uuid_raw: i64) -> Seq<
    CombatEventModel,
> {
    if rec.owner_id == 0 {
        Seq::empty()
    } else if rec.top_summoner_id == 0 && rec.attacker_uuid == 0 {
        Seq::empty()
    } else {
        let attacker_uuid = if rec.top_summoner_id != 0 {
            rec.top_summoner_id
        } else {
            rec.attacker_uuid
        };
        let damage = if rec.lucky_value != 0 {
            rec.lucky_value
        } else {
            rec.value
        };
        let is_miss_type = rec.damage_type == DAMAGE_TYPE_MISS;
        let is_heal = rec.damage_type == DAMAGE_TYPE_HEAL;
        let target_uid = spec_player_uid(target_uuid_raw);
        let is_target_player = spec_is_player(target_uuid_raw);
        let is_player_attacker = spec_is_player(attacker_uuid);
        let player_uid = spec_player_uid(attacker_uuid);
        let is_crit = rec.type_flag & 1 == 1;
        let is_lucky = rec.lucky_value != 0;
        if damage == 0 && !is_miss_type && !rec.is_miss {
            Seq::empty()
        } else if is_miss_type || rec.is_miss {
            if is_target_player {
                seq![
                    CombatEventModel::DamageTaken(
                        DamageTakenHit {
                            player_uid: target_uid,
                            hp_lessen: 0,
                            is_miss: true,
                            is_dead: rec.is_dead,
                        },
                    ),
                ]
            } else {
                Seq::empty()
            }
        } else if is_heal {
            if is_player_attacker && is_target_player {
                seq![
                    CombatEventModel::Healing(
                        HealingHit { player_uid, healing: damage, is_crit, is_lucky },
                    ),
                ]
            } else {
                Seq::empty()
            }
        } else {
            (if is_player_attacker {
                seq![
                    CombatEventModel::Damage(DamageHit { player_uid, damage, is_crit, is_lucky }),
                ]
            } else {
                Seq::empty()
            }) + (if is_target_player {
                seq![
                    CombatEventModel::DamageTaken(
                        DamageTakenHit {
                            player_uid: target_uid,
                            hp_lessen: if rec.hp_lessen_value > 0 {
                                rec.hp_lessen_value
                            } else {
                                damage
                            },
                            is_miss: false,
                            is_dead: rec.is_dead,
                        },
                    ),
                ]
            } else {
                Seq::empty()
            })
        }
    }
}

/// The combat events of the damage records from position `i` on.
pub open spec fn spec_damage_events_from(
    damages: Seq<DamageInfo>,
    i: int,
    target_uuid_raw: i64,
) -> Seq<CombatEventModel>
    decreases damages.len() - i,
    when 0 <= i
{
    if i < damages.len() {
        spec_events_for_damage(damages[i], target_uuid_raw) + spec_damage_events_from(
            damages,
            i + 1,
            target_uuid_raw,
        )
    } else {
        Seq::empty()
    }
}

/// The combat events of one entity delta: those of every damage record in
/// its skill effects, against the delta's entity as the target.
pub open spec fn spec_combat_events_of_delta(delta: AoiSyncDelta) -> Seq<CombatEventModel> {
    match delta.skill_effects {
        Option::None => Seq::empty(),
        Option::Some(se) => spec_damage_events_from(se.damages@, 0, delta.uuid),
    }
}

/// Append the combat events of one damage record to `events`.
fn push_events_for_damage(rec: &DamageInfo, target_uuid_raw: i64, events: &mut Vec<CombatEvent>)
    ensures
        events_model(final(events)@) =~= events_model(old(events)@) + spec_events_for_damage(
            *rec,
            target_uuid_raw,
        ),
{
    if rec.owner_id == 0 {
        return ;
    }
    if rec.top_summoner_id == 0 && rec.attacker_uuid == 0 {
        return ;
    }
    let attacker_uuid = if rec.top_summoner_id != 0 {
        rec.top_summoner_id
    } else {
        rec.attacker_uuid
    };
    let damage = if rec.lucky_value != 0 {
        rec.lucky_value
    } else {
        rec.value
    };
    let is_miss_type = rec.damage_type == DAMAGE_TYPE_MISS;
    let is_heal = rec.damage_type == DAMAGE_TYPE_HEAL;
    let target_uid = crate::protocol::get_player_uid(target_uuid_raw);
    let is_target_player = crate::protocol::is_player(target_uuid_raw);
    let is_player_attacker = crate::protocol::is_player(attacker_uuid);
    let player_uid = crate::protocol::get_player_uid(attacker_uuid);
    let is_crit = rec.type_flag & 1 == 1;
    let is_lucky = rec.lucky_value != 0;
    if damage == 0 && !is_miss_type && !rec.is_miss {
        return ;
    }
    if is_miss_type || rec.is_miss {
        if is_target_player {
            events.push(
                CombatEvent::DamageTaken(
                    DamageTakenHit {
                        player_uid: target_uid,
                        hp_lessen: 0,
                        is_miss: true,
                        is_dead: rec.is_dead,
                    },
                ),
            );
        }
        return ;
    }
    if is_heal {
        if is_player_attacker && is_target_player {
            events.push(
                CombatEvent::Healing(HealingHit { player_uid, healing: damage, is_crit, is_lucky }),
            );
        }
        return ;
    }
    if is_player_attacker {
        events.push(CombatEvent::Damage(DamageHit { player_uid, damage, is_crit, is_lucky }));
    }
    if is_target_player {
        let actual_hp_lessen = if rec.hp_lessen_value > 0 {
            rec.hp_lessen_value
        } else {
            damage
        };
        events.push(
            CombatEvent::DamageTaken(
                DamageTakenHit {
                    player_uid: target_uid,
                    hp_lessen: actual_hp_lessen,
                    is_miss: false,
                    is_dead: rec.is_dead,
                },
            ),
        );
    }
}

/// The combat events of one entity delta: every damage record of its
/// skill effects classified against the delta's entity as the target.
pub fn extract_combat_events_from_aoi_delta(delta: &AoiSyncDelta) -> (events: Vec<CombatEvent>)
    ensures
        events_model(events@) =~= spec_combat_events_of_delta(*delta),
{
    let mut events: Vec<CombatEvent> = Vec::new();
    let skill_effects = match &delta.skill_effects {
        Some(se) => se,
        None => {
            return events;
        },
    };
    let ghost damages = skill_effects.damages@;
    let n = skill_effects.damages.len();
    let mut i: usize = 0;
    while i < n
        invariant
            n == damages.len(),
            i <= n,
            delta.skill_effects == Some(*skill_effects),
            damages == skill_effects.damages@,
            events_model(events@) + spec_damage_events_from(damages, i as int, delta.uuid)
                =~= spec_damage_events_from(damages, 0, delta.uuid),
        decreases n - i,
    {
        push_events_for_damage(&skill_effects.damages[i], delta.uuid, &mut events);
        i += 1;
    }
    events
}

} // verus!
