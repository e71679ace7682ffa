use meter_core::entity::{EntityType, EntityUpdate};
use meter_core::session::{CombatEvent, EncounterSession, Outcome, SessionPhase};
use meter_core::status_effect::{EffectCategory, StatusEffect};
use meter_core::{IncapacitatedEvent, IncapacitationEventType};

fn spawn(id: u64, t: EntityType) -> CombatEvent {
    CombatEvent::Spawn { id, update: EntityUpdate { entity_type: t, ..Default::default() } }
}

fn hit(attacker: u64, defender: u64, damage: i64, timestamp: i64) -> CombatEvent {
    CombatEvent::Damage {
        attacker,
        defender,
        skill_id: 100,
        damage,
        crit: false,
        back_attack: false,
        front_attack: false,
        timestamp,
    }
}

fn record<'a>(s: &'a EncounterSession, id: u64) -> &'a meter_core::encounter_entity::EncounterEntity {
    s.records().iter().find(|e| e.id == id).unwrap()
}

#[test]
fn boss_confirmed_later_becomes_valid() {
    let mut s = EncounterSession::new();
    assert_eq!(s.dispatch(CombatEvent::Start { timestamp: 0 }), Outcome::Applied);
    assert_eq!(s.dispatch(spawn(1, EntityType::Unknown)), Outcome::Applied);
    assert_eq!(s.dispatch(hit(1, 2, 500, 10)), Outcome::Applied);
    assert!(!record(&s, 1).is_valid());
    assert_eq!(record(&s, 1).class_id, 0);
    assert_eq!(s.dispatch(spawn(1, EntityType::Boss)), Outcome::Applied);
    assert!(record(&s, 1).is_valid());
    assert_eq!(record(&s, 1).damage_stats.damage_dealt, 500);
}

#[test]
fn unknown_update_does_not_downgrade() {
    let mut s = EncounterSession::new();
    s.dispatch(spawn(1, EntityType::Player));
    s.dispatch(CombatEvent::Spawn {
        id: 1,
        update: EntityUpdate { name: Some("Nameless".to_string()), ..Default::default() },
    });
    s.dispatch(CombatEvent::Spawn { id: 1, update: EntityUpdate { class_id: Some(102), ..Default::default() } });
    s.dispatch(CombatEvent::Spawn {
        id: 1,
        update: EntityUpdate { name: Some("Kay".to_string()), ..Default::default() },
    });
    assert_eq!(s.directory.classify(1), EntityType::Player);
    let e = s.directory.get(1).unwrap();
    assert_eq!(e.name, "Kay");
    assert_eq!(e.class_id, 102);
}

#[test]
fn damage_from_summon_goes_to_owner() {
    let mut s = EncounterSession::new();
    s.dispatch(CombatEvent::Start { timestamp: 0 });
    s.dispatch(CombatEvent::Spawn {
        id: 1,
        update: EntityUpdate { entity_type: EntityType::Player, class_id: Some(102), ..Default::default() },
    });
    s.dispatch(CombatEvent::Spawn {
        id: 50,
        update: EntityUpdate { entity_type: EntityType::Summon, owner_id: Some(1), ..Default::default() },
    });
    s.dispatch(spawn(9, EntityType::Boss));
    assert_eq!(s.dispatch(hit(50, 9, 300, 5)), Outcome::Applied);
    assert_eq!(record(&s, 1).damage_stats.damage_dealt, 300);
    assert_eq!(record(&s, 9).damage_stats.damage_taken, 300);
    assert_eq!(s.totals.total_damage_dealt, 300);
    assert_eq!(s.totals.total_damage_taken, 300);
    assert!(s.records().iter().all(|e| e.id != 50));
}

#[test]
fn malformed_events_are_counted_and_dropped() {
    let mut s = EncounterSession::new();
    s.dispatch(CombatEvent::Start { timestamp: 0 });
    assert_eq!(s.dispatch(hit(7, 8, 100, 5)), Outcome::Malformed);
    s.dispatch(spawn(7, EntityType::Player));
    assert_eq!(s.dispatch(hit(7, 8, -1, 5)), Outcome::Malformed);
    assert_eq!(s.dispatch(hit(7, 8, 1, -5)), Outcome::Malformed);
    assert_eq!(s.dispatch(CombatEvent::Recover { id: 99, timestamp: 10 }), Outcome::Malformed);
    assert_eq!(s.malformed, 4);
    assert!(s.records().is_empty());
    assert_eq!(s.phase, SessionPhase::Active);
}

#[test]
fn owner_cycle_is_rejected() {
    let mut s = EncounterSession::new();
    s.dispatch(CombatEvent::Start { timestamp: 0 });
    s.dispatch(CombatEvent::Spawn {
        id: 1,
        update: EntityUpdate { entity_type: EntityType::Projectile, owner_id: Some(2), ..Default::default() },
    });
    s.dispatch(CombatEvent::Spawn {
        id: 2,
        update: EntityUpdate { entity_type: EntityType::Summon, owner_id: Some(1), ..Default::default() },
    });
    assert_eq!(s.directory.resolve_owner(1), None);
    assert_eq!(s.dispatch(hit(1, 3, 10, 1)), Outcome::Malformed);
}

#[test]
fn paused_session_drops_combat_but_tracks_entities() {
    let mut s = EncounterSession::new();
    assert_eq!(s.dispatch(hit(1, 2, 10, 1)), Outcome::Dropped);
    s.dispatch(CombatEvent::Start { timestamp: 0 });
    s.dispatch(spawn(1, EntityType::Player));
    assert_eq!(s.dispatch(CombatEvent::Pause), Outcome::Applied);
    assert_eq!(s.phase, SessionPhase::Paused);
    assert_eq!(s.dispatch(hit(1, 2, 10, 1)), Outcome::Dropped);
    assert_eq!(s.dispatch(spawn(3, EntityType::Esther)), Outcome::Applied);
    assert_eq!(s.directory.classify(3), EntityType::Esther);
    assert!(s.records().is_empty());
    assert_eq!(s.dispatch(CombatEvent::Resume), Outcome::Applied);
    assert_eq!(s.dispatch(hit(1, 2, 10, 1)), Outcome::Applied);
    assert_eq!(s.dispatch(CombatEvent::End { timestamp: 100 }), Outcome::Applied);
    assert_eq!(s.phase, SessionPhase::Ended);
    assert_eq!(s.dispatch(hit(1, 2, 10, 1)), Outcome::Dropped);
    assert_eq!(s.dispatch(spawn(4, EntityType::Boss)), Outcome::Dropped);
    assert_eq!(s.dispatch(CombatEvent::Start { timestamp: 5 }), Outcome::Dropped);
    assert_eq!(record(&s, 1).damage_stats.damage_dealt, 10);
}

#[test]
fn buffs_and_debuffs_are_credited() {
    let mut s = EncounterSession::new();
    s.dispatch(CombatEvent::Start { timestamp: 0 });
    s.dispatch(spawn(1, EntityType::Player));
    s.dispatch(spawn(2, EntityType::Player));
    s.dispatch(spawn(9, EntityType::Boss));
    let buff = |id: u32, amp_bp: u32| StatusEffect {
        id,
        category: EffectCategory::Buff,
        unique_group: 0,
        duration: 0,
        amp_bp,
    };
    s.dispatch(CombatEvent::EffectApply { target: 1, source: 2, effect: buff(10, 1000), timestamp: 1 });
    s.dispatch(CombatEvent::EffectApply { target: 1, source: 2, effect: buff(20, 500), timestamp: 1 });
    s.dispatch(CombatEvent::EffectApply {
        target: 9,
        source: 2,
        effect: StatusEffect { id: 30, category: EffectCategory::Debuff, unique_group: 5, duration: 0, amp_bp: 2000 },
        timestamp: 1,
    });
    assert_eq!(s.dispatch(hit(1, 9, 1000, 2)), Outcome::Applied);
    let r = record(&s, 1);
    assert_eq!(r.damage_stats.buffed_by.credit_of(10), 73);
    assert_eq!(r.damage_stats.buffed_by.credit_of(20), 40);
    assert_eq!(r.damage_stats.debuffed_by.credit_of(30), 167);
    assert_eq!(r.damage_stats.rdps_damage_received, 280);
    assert_eq!(r.skills.len(), 1);
    assert_eq!(r.skills[0].total_damage, 1000);
    assert_eq!(r.skills[0].skill_cast_log[0].hits[0].buffed_by, vec![10, 20]);
    assert_eq!(r.skills[0].skill_cast_log[0].hits[0].debuffed_by, vec![30]);
}

#[test]
fn death_caps_and_end_caps_again() {
    let mut s = EncounterSession::new();
    s.dispatch(CombatEvent::Start { timestamp: 0 });
    s.dispatch(spawn(1, EntityType::Player));
    let fall = CombatEvent::Fall { id: 1, timestamp: 3000, down_time: 4000, stand_up_time: None, move_time: None };
    assert_eq!(s.dispatch(fall), Outcome::Applied);
    assert_eq!(s.dispatch(CombatEvent::Death { id: 1, timestamp: 4000 }), Outcome::Applied);
    let expected =
        vec![IncapacitatedEvent { event_type: IncapacitationEventType::FallDown, timestamp: 3000, duration: 1000 }];
    assert_eq!(record(&s, 1).damage_stats.incapacitations, expected);
    assert!(record(&s, 1).is_dead);
    assert_eq!(record(&s, 1).damage_stats.deaths, 1);
    s.dispatch(CombatEvent::End { timestamp: 9000 });
    assert_eq!(record(&s, 1).damage_stats.incapacitations, expected);
    assert_eq!(s.ended_at, 9000);
}

#[test]
fn recover_event_with_nothing_open() {
    let mut s = EncounterSession::new();
    s.dispatch(CombatEvent::Start { timestamp: 0 });
    s.dispatch(spawn(1, EntityType::Player));
    assert_eq!(s.dispatch(CombatEvent::Recover { id: 1, timestamp: 5000 }), Outcome::Applied);
    assert!(record(&s, 1).damage_stats.incapacitations.is_empty());
}

#[test]
fn fall_with_out_of_range_total_is_malformed() {
    let mut s = EncounterSession::new();
    s.dispatch(CombatEvent::Start { timestamp: 0 });
    s.dispatch(spawn(1, EntityType::Player));
    let fall = CombatEvent::Fall { id: 1, timestamp: 10, down_time: i64::MAX, stand_up_time: Some(1), move_time: None };
    assert_eq!(s.dispatch(fall), Outcome::Malformed);
    assert_eq!(s.malformed, 1);
}

#[test]
fn casts_are_counted() {
    let mut s = EncounterSession::new();
    s.dispatch(CombatEvent::Start { timestamp: 0 });
    s.dispatch(spawn(1, EntityType::Player));
    assert_eq!(s.dispatch(CombatEvent::SkillCast { caster: 1, skill_id: 100, timestamp: 10 }), Outcome::Applied);
    assert_eq!(s.dispatch(hit(1, 2, 50, 20)), Outcome::Applied);
    let r = record(&s, 1);
    assert_eq!(r.skill_stats.casts, 1);
    assert_eq!(r.skill_stats.hits, 1);
    assert_eq!(r.skills[0].casts, 1);
    assert_eq!(r.skills[0].skill_cast_log.len(), 1);
    assert_eq!(r.skills[0].skill_cast_log[0].hits.len(), 1);
}

#[test]
fn dps_is_recomputed_on_request() {
    let mut s = EncounterSession::new();
    s.dispatch(CombatEvent::Start { timestamp: 1000 });
    s.dispatch(spawn(1, EntityType::Player));
    s.dispatch(hit(1, 2, 3000, 1500));
    s.refresh_dps(3000);
    assert_eq!(s.totals.dps, 1500);
    assert_eq!(record(&s, 1).damage_stats.dps, 1500);
    assert_eq!(record(&s, 1).skills[0].dps, 1500);
    s.refresh_dps(500);
    assert_eq!(s.totals.dps, 0);
}

#[test]
fn unknown_effects_are_kept_once() {
    let mut s = EncounterSession::new();
    assert_eq!(s.dispatch(CombatEvent::UnknownEffect { effect_id: 4 }), Outcome::Dropped);
    s.dispatch(CombatEvent::Start { timestamp: 0 });
    assert_eq!(s.dispatch(CombatEvent::UnknownEffect { effect_id: 4 }), Outcome::Applied);
    s.dispatch(CombatEvent::UnknownEffect { effect_id: 9 });
    s.dispatch(CombatEvent::UnknownEffect { effect_id: 4 });
    assert_eq!(s.totals.unknown_buffs, vec![4, 9]);
}

#[test]
fn reset_discards_everything() {
    let mut s = EncounterSession::new();
    s.dispatch(CombatEvent::Start { timestamp: 0 });
    s.dispatch(spawn(1, EntityType::Player));
    s.dispatch(hit(1, 2, 10, 1));
    s.reset();
    assert_eq!(s.phase, SessionPhase::NotStarted);
    assert!(s.records().is_empty());
    assert!(!s.directory.contains(1));
    assert_eq!(s.totals.total_damage_dealt, 0);
}
