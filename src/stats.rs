//! Accumulated statistics: per-entity damage and skill counters, and the
//! encounter-wide totals.
use crate::credit::{clamp_i64, CreditMap};
use crate::incapacitation::IncapacitatedEvent;
use vstd::prelude::*;

verus! {

/// Cast and hit counters of one entity.
#[derive(Debug, Clone, Default)]
pub struct SkillStats {
    pub casts: i64,
    pub hits: i64,
    pub crits: i64,
    pub back_attacks: i64,
    pub front_attacks: i64,
    pub counters: i64,
    pub identity_stats: Option<String>,
}

/// The entity that took the most damage, by name.
#[derive(Debug, Clone, Default)]
pub struct MostDamageTakenEntity {
    pub name: String,
    pub damage_taken: i64,
}

/// Damage accumulators of one entity. Counters only grow; `death_time`,
/// `dps` and the logs are point-in-time values. `buffed_by` and
/// `debuffed_by` hold the damage credited to each effect id.
#[derive(Debug, Clone, Default)]
pub struct DamageStats {
    pub damage_dealt: i64,
    pub hyper_awakening_damage: i64,
    pub damage_taken: i64,
    pub buffed_by: CreditMap,
    pub debuffed_by: CreditMap,
    pub buffed_by_support: i64,
    pub buffed_by_identity: i64,
    pub debuffed_by_support: i64,
    pub buffed_by_hat: i64,
    pub crit_damage: i64,
    pub back_attack_damage: i64,
    pub front_attack_damage: i64,
    pub shields_given: u64,
    pub shields_received: u64,
    pub damage_absorbed: u64,
    pub damage_absorbed_on_others: u64,
    pub deaths: i64,
    pub death_time: i64,
    pub dps: i64,
    pub dps_average: Vec<i64>,
    pub dps_rolling_10s_avg: Vec<i64>,
    pub rdps_damage_received: i64,
    pub rdps_damage_received_support: i64,
    pub rdps_damage_given: i64,
    pub incapacitations: Vec<IncapacitatedEvent>,
}

/// Damage per second over `elapsed_ms` milliseconds, rounded down and
/// saturated to `i64`; zero when nothing was dealt or no time elapsed.
pub open spec fn per_second(damage: int, elapsed_ms: int) -> i64 {
    if damage <= 0 || elapsed_ms <= 0 {
        0
    } else {
        clamp_i64(damage * 1000 / elapsed_ms)
    }
}

/// Computes `per_second`.
pub fn dps_of(damage: i64, elapsed_ms: i64) -> (r: i64)
    ensures
        r == per_second(damage as int, elapsed_ms as int),
{
    if damage <= 0 || elapsed_ms <= 0 {
        return 0;
    }
    let scaled = (damage as i128) * 1000;
    let q = scaled / (elapsed_ms as i128);
    if q > i64::MAX as i128 {
        i64::MAX
    } else {
        q as i64
    }
}

impl DamageStats {
    /// All counters zero, no credit, no incapacitation.
    pub open spec fn is_empty(&self) -> bool {
        &&& self.damage_dealt == 0
        &&& self.damage_taken == 0
        &&& self.deaths == 0
        &&& self.death_time == 0
        &&& self.buffed_by.entries() == Map::<u32, i64>::empty()
        &&& self.debuffed_by.entries() == Map::<u32, i64>::empty()
        &&& self.incapacitations@ == Seq::<IncapacitatedEvent>::empty()
        &&& self.rdps_damage_received == 0
        &&& self.rdps_damage_received_support == 0
        &&& self.rdps_damage_given == 0
    }

    pub fn new() -> (r: DamageStats)
        ensures
            r.is_empty(),
    {
        DamageStats {
            damage_dealt: 0,
            hyper_awakening_damage: 0,
            damage_taken: 0,
            buffed_by: CreditMap::new(),
            debuffed_by: CreditMap::new(),
            buffed_by_support: 0,
            buffed_by_identity: 0,
            debuffed_by_support: 0,
            buffed_by_hat: 0,
            crit_damage: 0,
            back_attack_damage: 0,
            front_attack_damage: 0,
            shields_given: 0,
            shields_received: 0,
            damage_absorbed: 0,
            damage_absorbed_on_others: 0,
            deaths: 0,
            death_time: 0,
            dps: 0,
            dps_average: Vec::new(),
            dps_rolling_10s_avg: Vec::new(),
            rdps_damage_received: 0,
            rdps_damage_received_support: 0,
            rdps_damage_given: 0,
            incapacitations: Vec::new(),
        }
    }
}

/// Encounter-wide totals. `unknown_buffs` lists, once each, the effect ids
/// that hits referred to and the reference data did not know.
#[derive(Debug, Clone, Default)]
pub struct EncounterDamageStats {
    pub total_damage_dealt: i64,
    pub top_damage_dealt: i64,
    pub total_damage_taken: i64,
    pub top_damage_taken: i64,
    pub dps: i64,
    pub most_damage_taken_entity: MostDamageTakenEntity,
    pub total_shielding: u64,
    pub total_effective_shielding: u64,
    pub unknown_buffs: Vec<u32>,
    pub max_stagger: i32,
    pub stagger_start: i64,
}

} // verus!
