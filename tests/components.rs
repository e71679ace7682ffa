use meter_core::class_skills::{BardSkills, WildsoulSkills};
use meter_core::stats::dps_of;
use meter_core::attribution::DamageLayer;
use meter_core::entity::{EntityDirectory, EntityType, EntityUpdate, Npc, NpcGrade};
use meter_core::misc::{HitFlag, HitOption};
use meter_core::skill::{find_skill, record_cast, record_hit, Skill, SkillHit, CAST_WINDOW_MS};
use meter_core::stats_api::Stats;
use meter_core::status_effect::{EffectCategory, StatusEffect, StatusEffectTracker};
use meter_core::utils::{default_scale, default_true};

fn effect(id: u32, category: EffectCategory, unique_group: u32, duration: i64, amp_bp: u32) -> StatusEffect {
    StatusEffect { id, category, unique_group, duration, amp_bp }
}

#[test]
fn npc_boss_grades() {
    let mut npc = Npc::default();
    for (grade, boss) in [
        (NpcGrade::NoGrade, false),
        (NpcGrade::Normal, false),
        (NpcGrade::Elite, false),
        (NpcGrade::Commander, true),
        (NpcGrade::Raid, true),
        (NpcGrade::Boss, true),
        (NpcGrade::EpicRaid, true),
    ] {
        npc.grade = grade;
        assert_eq!(npc.is_boss(), boss);
    }
}

#[test]
fn npc_names() {
    let mut npc = Npc::default();
    assert!(!npc.has_valid_name());
    npc.name = Some("Valtan".to_string());
    assert!(npc.has_valid_name());
    npc.name = Some("npc_name_1".to_string());
    assert!(!npc.has_valid_name());
    npc.name = Some("발탄".to_string());
    assert!(!npc.has_valid_name());
    npc.name = Some(String::new());
    assert!(npc.has_valid_name());
}

#[test]
fn directory_merges_without_erasing() {
    let mut d = EntityDirectory::new();
    assert_eq!(d.classify(5), EntityType::Unknown);
    d.upsert(5, EntityUpdate { class_id: Some(102), gear_level: Some(160_050), ..Default::default() });
    d.upsert(5, EntityUpdate { name: Some("Ann".to_string()), ..Default::default() });
    d.upsert(5, EntityUpdate { entity_type: EntityType::Player, ..Default::default() });
    d.upsert(5, EntityUpdate::default());
    let e = d.get(5).unwrap();
    assert_eq!(e.class_id, 102);
    assert_eq!(e.gear_level, 160_050);
    assert_eq!(e.name, "Ann");
    assert_eq!(d.classify(5), EntityType::Player);
    assert_eq!(d.resolve_owner(5), Some(5));
    assert_eq!(d.resolve_owner(6), None);
    assert!(d.contains(5));
}

#[test]
fn owner_chain_depth_limit() {
    let mut d = EntityDirectory::new();
    d.upsert(0, EntityUpdate { entity_type: EntityType::Player, ..Default::default() });
    for id in 1..=9u64 {
        d.upsert(id, EntityUpdate { entity_type: EntityType::Projectile, owner_id: Some(id - 1), ..Default::default() });
    }
    assert_eq!(d.resolve_owner(8), Some(0));
    assert_eq!(d.resolve_owner(9), None);
}

#[test]
fn unique_group_replaces_and_group_zero_stacks() {
    let mut t = StatusEffectTracker::new();
    t.apply(1, effect(30, EffectCategory::Buff, 5, 0, 100), 2, 0);
    t.apply(1, effect(31, EffectCategory::Buff, 5, 0, 200), 2, 1);
    t.apply(1, effect(20, EffectCategory::Buff, 0, 0, 10), 2, 1);
    t.apply(1, effect(20, EffectCategory::Buff, 0, 0, 10), 3, 1);
    t.apply(2, effect(30, EffectCategory::Buff, 5, 0, 100), 2, 1);
    let layers = t.hit_layers(1, 9, 5);
    let ids: Vec<u32> = layers.iter().map(|l| l.effect_id).collect();
    assert_eq!(ids, vec![20, 20, 31]);
    t.expire(1, 20);
    assert_eq!(t.hit_layers(1, 9, 5), vec![DamageLayer { effect_id: 31, amp_bp: 200, debuff: false }]);
}

#[test]
fn effects_expire_after_their_duration() {
    let mut t = StatusEffectTracker::new();
    t.apply(1, effect(7, EffectCategory::Buff, 0, 1000, 100), 2, 500);
    t.apply(9, effect(8, EffectCategory::Debuff, 0, 0, 100), 2, 500);
    t.apply(1, effect(6, EffectCategory::Debuff, 0, 0, 100), 2, 500);
    assert!(t.hit_layers(1, 9, 400).is_empty());
    assert_eq!(t.hit_layers(1, 9, 1499).len(), 2);
    let later = t.hit_layers(1, 9, 1500);
    assert_eq!(later, vec![DamageLayer { effect_id: 8, amp_bp: 100, debuff: true }]);
}

fn skill_hit(timestamp: i64, damage: i64, crit: bool) -> SkillHit {
    SkillHit { timestamp, damage, crit, ..Default::default() }
}

#[test]
fn ledger_groups_hits_into_casts() {
    let mut skills: Vec<Skill> = Vec::new();
    record_cast(&mut skills, 7, 1000);
    record_hit(&mut skills, 7, skill_hit(1200, 100, true));
    record_hit(&mut skills, 7, skill_hit(1400, 300, false));
    record_hit(&mut skills, 7, skill_hit(1400 + CAST_WINDOW_MS + 1, 50, false));
    record_hit(&mut skills, 8, skill_hit(2000, 10, false));
    assert_eq!(skills.len(), 2);
    let i = find_skill(&skills, 7).unwrap();
    let s = &skills[i];
    assert_eq!(s.casts, 1);
    assert_eq!(s.hits, 3);
    assert_eq!(s.crits, 1);
    assert_eq!(s.crit_damage, 100);
    assert_eq!(s.total_damage, 450);
    assert_eq!(s.max_damage, 300);
    assert_eq!(s.skill_cast_log.len(), 2);
    assert_eq!(s.skill_cast_log[0].hits.len(), 2);
    assert_eq!(s.skill_cast_log[0].last, 1400);
    assert_eq!(s.skill_cast_log[1].timestamp, 1400 + CAST_WINDOW_MS + 1);
    assert_eq!(find_skill(&skills, 9), None);
}

#[test]
fn stats_from_entries() {
    let s = Stats::from_entries(&vec![(0, 10), (1, 20), (2, 30), (3, 40), (4, 50), (5, 60), (9, 1), (0, 11)]);
    assert_eq!(s, Stats { crit: 11, spec: 20, swift: 30, exp: 40, atk_power: 50, add_dmg: 60 });
}

#[test]
fn hit_values() {
    assert_eq!(HitOption::from_value(1), Some(HitOption::BackAttack));
    assert_eq!(HitOption::from_value(5), None);
    assert_eq!(HitFlag::from_value(8), Some(HitFlag::DamageOverTimeCritical));
    assert_eq!(HitFlag::from_value(14), None);
    assert!(HitFlag::Critical.is_critical());
    assert!(!HitFlag::Dodge.is_critical());
}

#[test]
fn defaults() {
    assert!(default_true());
    assert_eq!(default_scale(), "1");
}

#[test]
fn dps_formula() {
    assert_eq!(dps_of(3000, 2000), 1500);
    assert_eq!(dps_of(1, 3), 333);
    assert_eq!(dps_of(0, 2000), 0);
    assert_eq!(dps_of(100, 0), 0);
    assert_eq!(dps_of(i64::MAX, 1), i64::MAX);
}

#[test]
fn class_skill_ids() {
    assert_eq!(BardSkills::Sonatina.id(), 21290);
    assert_eq!(BardSkills::SymphonyMelody.id(), 21320);
    assert_ne!(BardSkills::Stigma.id(), BardSkills::Concerto.id());
    assert_eq!(WildsoulSkills::FoxFireDance.id(), 33530);
}

#[test]
fn reapplying_non_stacking_effect_changes_nothing() {
    let mut once = StatusEffectTracker::new();
    let mut twice = StatusEffectTracker::new();
    for t in [&mut once, &mut twice] {
        t.apply(1, effect(5, EffectCategory::Buff, 0, 0, 100), 2, 0);
        t.apply(1, effect(9, EffectCategory::Buff, 3, 0, 300), 2, 10);
    }
    twice.apply(1, effect(9, EffectCategory::Buff, 3, 0, 300), 2, 10);
    assert_eq!(once.hit_layers(1, 0, 20), twice.hit_layers(1, 0, 20));
    assert_eq!(twice.hit_layers(1, 0, 20).len(), 2);
}
