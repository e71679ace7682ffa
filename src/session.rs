//! The encounter session: one ordered stream of events in, per-participant
//! statistics out.
//!
//! Phases go `NotStarted -> Active -> Paused <-> Active -> Ended`, and
//! `Ended` is final. Only an active session accumulates statistics; while
//! paused it still records what packets say about entities, so that players
//! who reconnect are recognized. Events that are malformed or that refer to
//! unknown entities are counted and dropped; none stops the session.
use crate::credit::{clamp_i64, saturating_add};
use crate::encounter_entity::EncounterEntity;
use crate::entity::{owner_chain, upserted, EntityDirectory, EntityUpdate, MAX_OWNER_DEPTH};
use crate::incapacitation::{after_death, after_fall, after_recovery, fall_total, IncapacitatedEvent};
use crate::skill::{cast_counted, ledger_step, ledger_wf, record_cast, Skill, SkillHit};
use crate::stats::{dps_of, per_second, EncounterDamageStats, MostDamageTakenEntity};
use crate::status_effect::{
    displaced, inserted_in_order, is_instance_of, EffectInstance, StatusEffect, StatusEffectTracker,
};
use vstd::prelude::*;

verus! {

#[derive(Debug, Clone, Copy, PartialEq, Eq, Structural)]
pub enum SessionPhase {
    NotStarted,
    Active,
    Paused,
    Ended,
}

/// A decoded combat event. Timestamps and durations are in milliseconds.
#[derive(Debug, Clone)]
pub enum CombatEvent {
    Start { timestamp: i64 },
    Pause,
    Resume,
    End { timestamp: i64 },
    Spawn { id: u64, update: EntityUpdate },
    SkillCast { caster: u64, skill_id: u32, timestamp: i64 },
    Damage {
        attacker: u64,
        defender: u64,
        skill_id: u32,
        damage: i64,
        crit: bool,
        back_attack: bool,
        front_attack: bool,
        timestamp: i64,
    },
    EffectApply { target: u64, source: u64, effect: StatusEffect, timestamp: i64 },
    EffectExpire { target: u64, effect_id: u32 },
    /// A hit referred to an effect id that the reference data lacks.
    UnknownEffect { effect_id: u32 },
    Fall {
        id: u64,
        timestamp: i64,
        down_time: i64,
        stand_up_time: Option<i64>,
        move_time: Option<i64>,
    },
    Recover { id: u64, timestamp: i64 },
    Death { id: u64, timestamp: i64 },
}

/// What became of a dispatched event.
#[derive(Debug, Clone, Copy, PartialEq, Eq, Structural)]
pub enum Outcome {
    Applied,
    Dropped,
    Malformed,
}

/// The phase after event `ev` in phase `p`.
pub open spec fn next_phase(p: SessionPhase, ev: CombatEvent) -> SessionPhase {
    match ev {
        CombatEvent::Start { .. } => if p == SessionPhase::NotStarted {
            SessionPhase::Active
        } else {
            p
        },
        CombatEvent::Pause => if p == SessionPhase::Active {
            SessionPhase::Paused
        } else {
            p
        },
        CombatEvent::Resume => if p == SessionPhase::Paused {
            SessionPhase::Active
        } else {
            p
        },
        CombatEvent::End { .. } => SessionPhase::Ended,
        _ => p,
    }
}

/// Events that feed the statistics, and so count only while active.
pub open spec fn is_combat_event(ev: CombatEvent) -> bool {
    match ev {
        CombatEvent::SkillCast { .. } | CombatEvent::Damage { .. } | CombatEvent::EffectApply { .. }
        | CombatEvent::EffectExpire { .. } | CombatEvent::UnknownEffect { .. } | CombatEvent::Fall { .. } | CombatEvent::Recover { .. }
        | CombatEvent::Death { .. } => true,
        _ => false,
    }
}

/// The record of `id` in `s`, if any.
pub open spec fn record_of(s: Seq<EncounterEntity>, id: u64) -> Option<EncounterEntity> {
    if exists|j: int| 0 <= j < s.len() && s[j].id == id {
        Some(s[choose|j: int| 0 <= j < s.len() && s[j].id == id])
    } else {
        None
    }
}

/// The skill ledger recorded so far for `id`.
pub open spec fn skills_of(s: Seq<EncounterEntity>, id: u64) -> Seq<Skill> {
    match record_of(s, id) {
        Some(e) => e.skills@,
        None => Seq::empty(),
    }
}

/// Damage recorded so far as dealt by `id`.
pub open spec fn dealt_by(s: Seq<EncounterEntity>, id: u64) -> int {
    match record_of(s, id) {
        Some(e) => e.damage_stats.damage_dealt as int,
        None => 0,
    }
}

/// The incapacitation timeline recorded so far for `id`.
pub open spec fn timeline_of(s: Seq<EncounterEntity>, id: u64) -> Seq<IncapacitatedEvent> {
    match record_of(s, id) {
        Some(e) => e.damage_stats.incapacitations@,
        None => Seq::empty(),
    }
}

/// Index `i` holds the record of `id`.
pub open spec fn holds(s: Seq<EncounterEntity>, i: int, id: u64) -> bool {
    0 <= i < s.len() && s[i].id == id
}

/// No two records share an id, and every record's timeline and skill
/// ledger are well formed.
pub open spec fn records_wf(s: Seq<EncounterEntity>) -> bool {
    &&& forall|a: int, b: int| 0 <= a < b < s.len() ==> #[trigger] s[a].id != #[trigger] s[b].id
    &&& forall|a: int| 0 <= a < s.len() ==> (#[trigger] s[a]).timeline_ok() && ledger_wf(s[a].skills@)
}

proof fn lemma_record_at(s: Seq<EncounterEntity>, i: int, id: u64)
    requires
        records_wf(s),
        holds(s, i, id),
    ensures
        record_of(s, id) == Some(s[i]),
{
    let j = choose|j: int| 0 <= j < s.len() && s[j].id == id;
    if j != i {
        if j < i {
            assert(s[j].id != s[i].id);
        } else {
            assert(s[i].id != s[j].id);
        }
    }
}

proof fn lemma_owner_known(m: Map<u64, crate::entity::Entity>, id: u64, fuel: nat)
    requires
        owner_chain(m, id, fuel) is Some,
    ensures
        m.contains_key(owner_chain(m, id, fuel)->0),
    decreases fuel,
{
    if m.contains_key(id) && m[id].entity_type.is_owned_kind() && fuel > 0 {
        lemma_owner_known(m, m[id].owner_id, (fuel - 1) as nat);
    }
}

/// `m` with one more malformed event counted, saturating.
pub open spec fn bumped(m: u64) -> u64 {
    if m == u64::MAX {
        m
    } else {
        (m + 1) as u64
    }
}

/// `new` counted a malformed event and changed nothing else.
pub open spec fn rejected(old: EncounterSession, new: EncounterSession) -> bool {
    &&& new.same_aggregates(&old)
    &&& new.directory@ == old.directory@
    &&& new.malformed == bumped(old.malformed)
}

/// What handling a damage event does.
pub open spec fn damage_handled(
    old: EncounterSession,
    new: EncounterSession,
    attacker: u64,
    damage: i64,
    timestamp: i64,
    r: Outcome,
) -> bool {
    let owner = owner_chain(old.directory@, attacker, MAX_OWNER_DEPTH as nat);
    &&& new.directory@ == old.directory@
    &&& new.effects@ == old.effects@
    &&& r == (if damage >= 0 && timestamp >= 0 && owner is Some {
        Outcome::Applied
    } else {
        Outcome::Malformed
    })
    &&& r == Outcome::Malformed ==> rejected(old, new)
    &&& r == Outcome::Applied ==> {
        &&& new.malformed == old.malformed
        &&& new.totals.total_damage_dealt == clamp_i64(old.totals.total_damage_dealt + damage)
        &&& exists|i: int|
            holds(new.entities@, i, owner->0) && #[trigger] new.entities@[i].damage_stats.damage_dealt
                == clamp_i64(dealt_by(old.entities@, owner->0) + damage)
    }
}

/// What handling an incapacitation event does: the record of `id` ends up
/// with timeline `timeline`, or the event is rejected.
pub open spec fn timeline_handled(
    old: EncounterSession,
    new: EncounterSession,
    id: u64,
    valid: bool,
    timeline: Seq<IncapacitatedEvent>,
    r: Outcome,
) -> bool {
    &&& new.directory@ == old.directory@
    &&& new.effects@ == old.effects@
    &&& new.totals == old.totals
    &&& r == (if valid && old.directory@.contains_key(id) {
        Outcome::Applied
    } else {
        r
    })
    &&& r != Outcome::Dropped
    &&& r == Outcome::Malformed ==> rejected(old, new)
    &&& r == Outcome::Applied ==> {
        &&& new.malformed == old.malformed
        &&& exists|i: int|
            holds(new.entities@, i, id) && #[trigger] new.entities@[i].damage_stats.incapacitations@
                == timeline
    }
}

/// What handling an explicit cast does.
pub open spec fn cast_handled(
    old: EncounterSession,
    new: EncounterSession,
    caster: u64,
    skill_id: u32,
    timestamp: i64,
    r: Outcome,
) -> bool {
    &&& new.directory@ == old.directory@
    &&& new.effects@ == old.effects@
    &&& new.totals == old.totals
    &&& r != Outcome::Dropped
    &&& timestamp >= 0 && old.directory@.contains_key(caster) ==> r == Outcome::Applied
    &&& r == Outcome::Malformed ==> rejected(old, new)
    &&& r == Outcome::Applied ==> new.malformed == old.malformed && exists|i: int|
        holds(new.entities@, i, caster) && ledger_step(
            skills_of(old.entities@, caster),
            (#[trigger] new.entities@[i]).skills@,
            skill_id,
            |a: Skill, b: Skill| cast_counted(a, b, timestamp),
        )
}

/// Only the status effects changed, to `effects`.
pub open spec fn effects_now(old: EncounterSession, new: EncounterSession, effects: Seq<EffectInstance>) -> bool {
    &&& new.directory@ == old.directory@
    &&& new.entities@ == old.entities@
    &&& new.totals == old.totals
    &&& new.malformed == old.malformed
    &&& new.effects@ == effects
}

/// The status effects after `effect` from `source` is applied to `target`.
pub open spec fn effect_applied(
    old: EncounterSession,
    new: EncounterSession,
    target: u64,
    source: u64,
    effect: StatusEffect,
    timestamp: i64,
) -> bool {
    &&& new.directory@ == old.directory@
    &&& new.entities@ == old.entities@
    &&& new.totals == old.totals
    &&& new.malformed == old.malformed
    &&& inserted_in_order(
        old.effects@.filter(|i: EffectInstance| !displaced(i, target, effect.unique_group)),
        (EffectInstance { target_id: target, source_id: source, effect, applied_at: timestamp }),
        new.effects@,
    )
}

/// Only the unknown-effect list changed: `effect_id` is in it, once.
pub open spec fn unknown_noted(old: EncounterSession, new: EncounterSession, effect_id: u32) -> bool {
    &&& new.directory@ == old.directory@
    &&& new.effects@ == old.effects@
    &&& new.entities@ == old.entities@
    &&& new.malformed == old.malformed
    &&& new.totals.unknown_buffs@ == (if old.totals.unknown_buffs@.contains(effect_id) {
        old.totals.unknown_buffs@
    } else {
        old.totals.unknown_buffs@.push(effect_id)
    })
}

/// One encounter.
pub struct EncounterSession {
    pub phase: SessionPhase,
    pub directory: EntityDirectory,
    pub effects: StatusEffectTracker,
    pub entities: Vec<EncounterEntity>,
    pub totals: EncounterDamageStats,
    pub malformed: u64,
    pub started_at: i64,
    pub ended_at: i64,
}

impl EncounterSession {
    pub open spec fn wf(&self) -> bool {
        &&& self.directory.wf()
        &&& self.effects.wf()
        &&& records_wf(self.entities@)
    }

    /// Everything but the phase, the directory and the malformed count is
    /// as in `other`.
    pub open spec fn same_aggregates(&self, other: &EncounterSession) -> bool {
        &&& self.entities@ == other.entities@
        &&& self.totals == other.totals
        &&& self.effects@ == other.effects@
    }

    pub fn new() -> (r: EncounterSession)
        ensures
            r.wf(),
            r.phase == SessionPhase::NotStarted,
            r.entities@ == Seq::<EncounterEntity>::empty(),
            r.directory@ == Map::<u64, crate::entity::Entity>::empty(),
            r.malformed == 0,
    {
        EncounterSession {
            phase: SessionPhase::NotStarted,
            directory: EntityDirectory::new(),
            effects: StatusEffectTracker::new(),
            entities: Vec::new(),
            totals: EncounterDamageStats {
                total_damage_dealt: 0,
                top_damage_dealt: 0,
                total_damage_taken: 0,
                top_damage_taken: 0,
                dps: 0,
                most_damage_taken_entity: MostDamageTakenEntity { name: String::new(), damage_taken: 0 },
                total_shielding: 0,
                total_effective_shielding: 0,
                unknown_buffs: Vec::new(),
                max_stagger: 0,
                stagger_start: 0,
            },
            malformed: 0,
            started_at: 0,
            ended_at: 0,
        }
    }

    fn reject(&mut self) -> (r: Outcome)
        ensures
            r == Outcome::Malformed,
            rejected(*old(self), *final(self)),
            final(self).phase == old(self).phase,
            final(self).wf() == old(self).wf(),
    {
        if self.malformed < u64::MAX {
            self.malformed = self.malformed + 1;
        }
        Outcome::Malformed
    }

    fn find_record(&self, id: u64) -> (r: Option<usize>)
        ensures
            match r {
                Some(i) => holds(self.entities@, i as int, id),
                None => forall|j: int| 0 <= j < self.entities@.len() ==> #[trigger] self.entities@[j].id != id,
            },
    {
        let mut i: usize = 0;
        while i < self.entities.len()
            invariant
                i <= self.entities@.len(),
                forall|j: int| 0 <= j < i ==> #[trigger] self.entities@[j].id != id,
            decreases self.entities@.len() - i,
        {
            if self.entities[i].id == id {
                return Some(i);
            }
            i = i + 1;
        }
        None
    }

    /// The index of the record of `id`, created from the directory on first
    /// use. `None` when `id` is unknown to both.
    fn slot(&mut self, id: u64) -> (r: Option<usize>)
        requires
            old(self).wf(),
        ensures
            final(self).wf(),
            final(self).phase == old(self).phase,
            final(self).directory@ == old(self).directory@,
            final(self).effects@ == old(self).effects@,
            final(self).totals == old(self).totals,
            final(self).malformed == old(self).malformed,
            old(self).directory@.contains_key(id) ==> r is Some,
            match r {
                Some(i) => {
                    &&& holds(final(self).entities@, i as int, id)
                    &&& final(self).entities@.len() >= old(self).entities@.len()
                    &&& forall|j: int| 0 <= j < old(self).entities@.len() ==> #[trigger] final(self).entities@[j]
                        == old(self).entities@[j]
                    &&& final(self).entities@[i as int].damage_stats.damage_dealt == dealt_by(old(self).entities@, id)
                    &&& final(self).entities@[i as int].damage_stats.incapacitations@ == timeline_of(
                        old(self).entities@,
                        id,
                    )
                    &&& final(self).entities@[i as int].skills@ == skills_of(old(self).entities@, id)
                    &&& record_of(old(self).entities@, id) is None ==> {
                        &&& final(self).entities@[i as int].damage_stats.is_empty()
                        &&& !final(self).entities@[i as int].is_dead
                    }
                },
                None => final(self).entities@ == old(self).entities@,
            },
    {
        match self.find_record(id) {
            Some(i) => {
                proof {
                    lemma_record_at(self.entities@, i as int, id);
                }
                Some(i)
            },
            None => {
                match self.directory.get(id) {
                    None => None,
                    Some(e) => {
                        let rec = EncounterEntity::from_entity(e);
                        let ghost old_entities = self.entities@;
                        self.entities.push(rec);
                        let i = self.entities.len() - 1;
                        assert(holds(self.entities@, i as int, id));
                        assert(record_of(old_entities, id) is None);
                        Some(i)
                    },
                }
            },
        }
    }

    /// Records what a packet says about entity `id`, and refreshes the type
    /// of its record if it has one: a record whose type is later confirmed
    /// counts as that type without reprocessing earlier events.
    pub fn on_spawn(&mut self, id: u64, update: EntityUpdate)
        requires
            old(self).wf(),
        ensures
            final(self).wf(),
            final(self).phase == old(self).phase,
            final(self).malformed == old(self).malformed,
            final(self).totals == old(self).totals,
            final(self).effects@ == old(self).effects@,
            final(self).directory@ == old(self).directory@.insert(id, final(self).directory@[id]),
            upserted(old(self).directory@, id, update, final(self).directory@[id]),
            final(self).entities@.len() == old(self).entities@.len(),
            forall|j: int|
                0 <= j < old(self).entities@.len() ==> {
                    &&& (#[trigger] final(self).entities@[j]).id == old(self).entities@[j].id
                    &&& final(self).entities@[j].damage_stats == old(self).entities@[j].damage_stats
                    &&& final(self).entities@[j].entity_type == (if old(self).entities@[j].id == id {
                        final(self).directory@[id].entity_type
                    } else {
                        old(self).entities@[j].entity_type
                    })
                },
    {
        self.directory.upsert(id, update);
        let t = self.directory.classify(id);
        match self.find_record(id) {
            Some(i) => {
                self.entities[i].entity_type = t;
            },
            None => {},
        }
    }

    /// Accounts for a hit of `damage` by `attacker` (credited to the owner
    /// of a projectile or summon) on `defender` with skill `skill_id`.
    pub fn on_damage(
        &mut self,
        attacker: u64,
        defender: u64,
        skill_id: u32,
        damage: i64,
        crit: bool,
        back_attack: bool,
        front_attack: bool,
        timestamp: i64,
    ) -> (r: Outcome)
        requires
            old(self).wf(),
        ensures
            final(self).wf(),
            final(self).phase == old(self).phase,
            damage_handled(*old(self), *final(self), attacker, damage, timestamp, r),
    {
        if damage < 0 || timestamp < 0 {
            return self.reject();
        }
        let owner = match self.directory.resolve_owner(attacker) {
            Some(o) => o,
            None => {
                return self.reject();
            },
        };
        proof {
            lemma_owner_known(self.directory@, attacker, MAX_OWNER_DEPTH as nat);
        }
        let ghost s0 = *self;
        let i = match self.slot(owner) {
            Some(i) => i,
            None => {
                return self.reject();
            },
        };
        let layers = self.effects.hit_layers(owner, defender, timestamp);
        let mut buffed_by: Vec<u32> = Vec::new();
        let mut debuffed_by: Vec<u32> = Vec::new();
        let mut k: usize = 0;
        while k < layers.len()
            decreases layers@.len() - k,
        {
            if layers[k].debuff {
                debuffed_by.push(layers[k].effect_id);
            } else {
                buffed_by.push(layers[k].effect_id);
            }
            k = k + 1;
        }
        let hit = SkillHit {
            timestamp,
            damage,
            crit,
            back_attack,
            front_attack,
            buffed_by,
            debuffed_by,
            rdps_damage_received: 0,
            rdps_damage_received_support: 0,
        };
        self.entities[i].record_damage_dealt(skill_id, hit, &layers);
        let dealt = self.entities[i].damage_stats.damage_dealt;
        assert(holds(self.entities@, i as int, owner));
        self.entities[i].skill_stats.hits = saturating_add(self.entities[i].skill_stats.hits, 1);
        if crit {
            self.entities[i].skill_stats.crits = saturating_add(self.entities[i].skill_stats.crits, 1);
        }
        if back_attack {
            self.entities[i].skill_stats.back_attacks = saturating_add(
                self.entities[i].skill_stats.back_attacks,
                1,
            );
        }
        if front_attack {
            self.entities[i].skill_stats.front_attacks = saturating_add(
                self.entities[i].skill_stats.front_attacks,
                1,
            );
        }
        self.totals.total_damage_dealt = saturating_add(self.totals.total_damage_dealt, damage);
        if dealt > self.totals.top_damage_dealt {
            self.totals.top_damage_dealt = dealt;
        }
        let ghost s1 = *self;
        assert(self.entities@[i as int].damage_stats.damage_dealt == clamp_i64(
            dealt_by(s0.entities@, owner) + damage,
        ));
        match self.slot(defender) {
            Some(d) => {
                let taken = saturating_add(self.entities[d].damage_stats.damage_taken, damage);
                self.entities[d].damage_stats.damage_taken = taken;
                self.totals.total_damage_taken = saturating_add(self.totals.total_damage_taken, damage);
                if taken > self.totals.top_damage_taken {
                    self.totals.top_damage_taken = taken;
                }
                assert(self.entities@[i as int].damage_stats.damage_dealt == s1.entities@[i as int].damage_stats.damage_dealt);
            },
            None => {},
        }
        assert(holds(self.entities@, i as int, owner));
        Outcome::Applied
    }

    /// Counts an explicit cast of skill `skill_id` by `caster`.
    pub fn on_cast(&mut self, caster: u64, skill_id: u32, timestamp: i64) -> (r: Outcome)
        requires
            old(self).wf(),
        ensures
            final(self).wf(),
            final(self).phase == old(self).phase,
            cast_handled(*old(self), *final(self), caster, skill_id, timestamp, r),
    {
        if timestamp < 0 {
            return self.reject();
        }
        match self.slot(caster) {
            None => self.reject(),
            Some(i) => {
                record_cast(&mut self.entities[i].skills, skill_id, timestamp);
                self.entities[i].skill_stats.casts = saturating_add(self.entities[i].skill_stats.casts, 1);
                assert(holds(self.entities@, i as int, caster));
                Outcome::Applied
            },
        }
    }

    /// Applies a status effect; see `StatusEffectTracker::apply`.
    pub fn on_effect_apply(&mut self, target: u64, source: u64, effect: StatusEffect, timestamp: i64)
        requires
            old(self).wf(),
        ensures
            final(self).wf(),
            final(self).phase == old(self).phase,
            effect_applied(*old(self), *final(self), target, source, effect, timestamp),
    {
        self.effects.apply(target, effect, source, timestamp);
    }

    /// Removes a status effect; see `StatusEffectTracker::expire`.
    pub fn on_effect_expire(&mut self, target: u64, effect_id: u32)
        requires
            old(self).wf(),
        ensures
            final(self).wf(),
            final(self).phase == old(self).phase,
            effects_now(
                *old(self),
                *final(self),
                old(self).effects@.filter(|i: EffectInstance| !is_instance_of(i, target, effect_id)),
            ),
    {
        self.effects.expire(target, effect_id);
    }

    /// Records a knockdown of `id`; see `record_fall`.
    pub fn on_fall(
        &mut self,
        id: u64,
        timestamp: i64,
        down_time: i64,
        stand_up_time: Option<i64>,
        move_time: Option<i64>,
    ) -> (r: Outcome)
        requires
            old(self).wf(),
        ensures
            final(self).wf(),
            final(self).phase == old(self).phase,
            timeline_handled(
                *old(self),
                *final(self),
                id,
                timestamp >= 0 && i64::MIN <= fall_total(down_time, stand_up_time, move_time) <= i64::MAX,
                after_fall(
                    timeline_of(old(self).entities@, id),
                    timestamp as int,
                    fall_total(down_time, stand_up_time, move_time) as i64,
                ),
                r,
            ),
    {
        let stand_up: i128 = match stand_up_time {
            Some(x) => x as i128,
            None => 0,
        };
        let moving: i128 = match move_time {
            Some(x) => x as i128,
            None => 0,
        };
        let total = (down_time as i128) + stand_up + moving;
        if timestamp < 0 || total < i64::MIN as i128 || total > i64::MAX as i128 {
            return self.reject();
        }
        match self.slot(id) {
            None => self.reject(),
            Some(i) => {
                self.entities[i].update_incapacitation(down_time, stand_up_time, move_time, timestamp);
                assert(holds(self.entities@, i as int, id));
                Outcome::Applied
            },
        }
    }

    /// Records that `id` got up; see `record_recovery`. With no knockdown
    /// running the timeline is unchanged, and that is no error.
    pub fn on_recover(&mut self, id: u64, timestamp: i64) -> (r: Outcome)
        requires
            old(self).wf(),
        ensures
            final(self).wf(),
            final(self).phase == old(self).phase,
            timeline_handled(
                *old(self),
                *final(self),
                id,
                timestamp >= 0,
                after_recovery(timeline_of(old(self).entities@, id), timestamp as int),
                r,
            ),
    {
        if timestamp < 0 {
            return self.reject();
        }
        match self.slot(id) {
            None => self.reject(),
            Some(i) => {
                self.entities[i].shorten_incapacitation(timestamp);
                assert(holds(self.entities@, i as int, id));
                Outcome::Applied
            },
        }
    }

    /// Records the death of `id` at `timestamp`, and caps its running
    /// incapacitations there.
    pub fn on_death(&mut self, id: u64, timestamp: i64) -> (r: Outcome)
        requires
            old(self).wf(),
        ensures
            final(self).wf(),
            final(self).phase == old(self).phase,
            timeline_handled(
                *old(self),
                *final(self),
                id,
                timestamp >= 0,
                after_death(timeline_of(old(self).entities@, id), timestamp as int),
                r,
            ),
            r == Outcome::Applied ==> exists|i: int|
                holds(final(self).entities@, i, id) && (#[trigger] final(self).entities@[i]).is_dead
                    && final(self).entities@[i].damage_stats.death_time == timestamp,
    {
        if timestamp < 0 {
            return self.reject();
        }
        match self.slot(id) {
            None => self.reject(),
            Some(i) => {
                self.entities[i].is_dead = true;
                self.entities[i].damage_stats.deaths = saturating_add(self.entities[i].damage_stats.deaths, 1);
                self.entities[i].damage_stats.death_time = timestamp;
                self.entities[i].cap_incapacitation_durations_to_death_time();
                assert(holds(self.entities@, i as int, id));
                Outcome::Applied
            },
        }
    }

    /// Ends the session at `timestamp`: every dead entity's incapacitations
    /// are capped at its death, and nothing accumulates any more.
    pub fn end(&mut self, timestamp: i64)
        requires
            old(self).wf(),
        ensures
            final(self).wf(),
            final(self).phase == SessionPhase::Ended,
            final(self).ended_at == timestamp,
            final(self).directory@ == old(self).directory@,
            final(self).effects@ == old(self).effects@,
            final(self).totals == old(self).totals,
            final(self).malformed == old(self).malformed,
            final(self).entities@.len() == old(self).entities@.len(),
            forall|j: int|
                0 <= j < old(self).entities@.len() ==> {
                    let e = old(self).entities@[j];
                    &&& (#[trigger] final(self).entities@[j]).id == e.id
                    &&& final(self).entities@[j].is_dead == e.is_dead
                    &&& final(self).entities@[j].damage_stats.damage_dealt == e.damage_stats.damage_dealt
                    &&& final(self).entities@[j].damage_stats.incapacitations@ == (if e.is_dead {
                        after_death(e.damage_stats.incapacitations@, e.damage_stats.death_time as int)
                    } else {
                        e.damage_stats.incapacitations@
                    })
                },
    {
        let ghost s0 = self.entities@;
        let mut j: usize = 0;
        while j < self.entities.len()
            invariant
                self.wf(),
                self.entities@.len() == s0.len(),
                self.directory@ == old(self).directory@,
                self.effects@ == old(self).effects@,
                self.totals == old(self).totals,
                self.malformed == old(self).malformed,
                j <= s0.len(),
                forall|k: int|
                    j <= k < s0.len() ==> #[trigger] self.entities@[k] == s0[k],
                forall|k: int|
                    0 <= k < j ==> {
                        let e = s0[k];
                        &&& (#[trigger] self.entities@[k]).id == e.id
                        &&& self.entities@[k].is_dead == e.is_dead
                        &&& self.entities@[k].damage_stats.damage_dealt == e.damage_stats.damage_dealt
                        &&& self.entities@[k].damage_stats.incapacitations@ == (if e.is_dead {
                            after_death(e.damage_stats.incapacitations@, e.damage_stats.death_time as int)
                        } else {
                            e.damage_stats.incapacitations@
                        })
                    },
            decreases s0.len() - j,
        {
            if self.entities[j].is_dead {
                self.entities[j].cap_incapacitation_durations_to_death_time();
            }
            j = j + 1;
        }
        self.phase = SessionPhase::Ended;
        self.ended_at = timestamp;
    }

    /// Routes `event` by kind. Statistics change only while active; entity
    /// updates are recorded in every phase but `Ended`; phase events move
    /// the session along `NotStarted -> Active -> Paused <-> Active -> Ended`.
    pub fn dispatch(&mut self, event: CombatEvent) -> (r: Outcome)
        requires
            old(self).wf(),
        ensures
            final(self).wf(),
            final(self).phase == next_phase(old(self).phase, event),
            is_combat_event(event) && old(self).phase != SessionPhase::Active ==> r == Outcome::Dropped,
            (event is Start || event is Pause || event is Resume || r == Outcome::Dropped) ==> {
                &&& final(self).same_aggregates(&*old(self))
                &&& final(self).directory@ == old(self).directory@
                &&& final(self).malformed == old(self).malformed
            },
            match event {
                CombatEvent::Start { timestamp } => {
                    &&& r == (if old(self).phase == SessionPhase::NotStarted {
                        Outcome::Applied
                    } else {
                        Outcome::Dropped
                    })
                    &&& r == Outcome::Applied ==> final(self).started_at == timestamp
                },
                CombatEvent::Pause => r == (if old(self).phase == SessionPhase::Active {
                    Outcome::Applied
                } else {
                    Outcome::Dropped
                }),
                CombatEvent::Resume => r == (if old(self).phase == SessionPhase::Paused {
                    Outcome::Applied
                } else {
                    Outcome::Dropped
                }),
                CombatEvent::End { timestamp } => {
                    &&& r == (if old(self).phase == SessionPhase::Ended {
                        Outcome::Dropped
                    } else {
                        Outcome::Applied
                    })
                    &&& r == Outcome::Applied ==> final(self).ended_at == timestamp
                },
                CombatEvent::Spawn { id, update } => if old(self).phase == SessionPhase::Ended {
                    r == Outcome::Dropped
                } else {
                    &&& r == Outcome::Applied
                    &&& final(self).directory@ == old(self).directory@.insert(id, final(self).directory@[id])
                    &&& upserted(old(self).directory@, id, update, final(self).directory@[id])
                },
                CombatEvent::Damage { attacker, damage, timestamp, .. } => old(self).phase
                    == SessionPhase::Active ==> damage_handled(
                    *old(self),
                    *final(self),
                    attacker,
                    damage,
                    timestamp,
                    r,
                ),
                CombatEvent::SkillCast { caster, skill_id, timestamp } => old(self).phase
                    == SessionPhase::Active ==> cast_handled(
                    *old(self),
                    *final(self),
                    caster,
                    skill_id,
                    timestamp,
                    r,
                ),
                CombatEvent::EffectApply { target, source, effect, timestamp } => old(self).phase
                    == SessionPhase::Active ==> r == Outcome::Applied && effect_applied(
                    *old(self),
                    *final(self),
                    target,
                    source,
                    effect,
                    timestamp,
                ),
                CombatEvent::EffectExpire { target, effect_id } => old(self).phase == SessionPhase::Active
                    ==> r == Outcome::Applied && effects_now(
                    *old(self),
                    *final(self),
                    old(self).effects@.filter(|i: EffectInstance| !is_instance_of(i, target, effect_id)),
                ),
                CombatEvent::UnknownEffect { effect_id } => old(self).phase == SessionPhase::Active
                    ==> r == Outcome::Applied && unknown_noted(*old(self), *final(self), effect_id),
                CombatEvent::Fall { id, timestamp, down_time, stand_up_time, move_time } => old(self).phase
                    == SessionPhase::Active ==> timeline_handled(
                    *old(self),
                    *final(self),
                    id,
                    timestamp >= 0 && i64::MIN <= fall_total(down_time, stand_up_time, move_time) <= i64::MAX,
                    after_fall(
                        timeline_of(old(self).entities@, id),
                        timestamp as int,
                        fall_total(down_time, stand_up_time, move_time) as i64,
                    ),
                    r,
                ),
                CombatEvent::Recover { id, timestamp } => old(self).phase == SessionPhase::Active
                    ==> timeline_handled(
                    *old(self),
                    *final(self),
                    id,
                    timestamp >= 0,
                    after_recovery(timeline_of(old(self).entities@, id), timestamp as int),
                    r,
                ),
                CombatEvent::Death { id, timestamp } => old(self).phase == SessionPhase::Active
                    ==> timeline_handled(
                    *old(self),
                    *final(self),
                    id,
                    timestamp >= 0,
                    after_death(timeline_of(old(self).entities@, id), timestamp as int),
                    r,
                ),
            },
    {
        match event {
            CombatEvent::Start { timestamp } => {
                if self.phase == SessionPhase::NotStarted {
                    self.phase = SessionPhase::Active;
                    self.started_at = timestamp;
                    Outcome::Applied
                } else {
                    Outcome::Dropped
                }
            },
            CombatEvent::Pause => {
                if self.phase == SessionPhase::Active {
                    self.phase = SessionPhase::Paused;
                    Outcome::Applied
                } else {
                    Outcome::Dropped
                }
            },
            CombatEvent::Resume => {
                if self.phase == SessionPhase::Paused {
                    self.phase = SessionPhase::Active;
                    Outcome::Applied
                } else {
                    Outcome::Dropped
                }
            },
            CombatEvent::End { timestamp } => {
                if self.phase == SessionPhase::Ended {
                    Outcome::Dropped
                } else {
                    self.end(timestamp);
                    Outcome::Applied
                }
            },
            CombatEvent::Spawn { id, update } => {
                if self.phase == SessionPhase::Ended {
                    Outcome::Dropped
                } else {
                    self.on_spawn(id, update);
                    Outcome::Applied
                }
            },
            _ => {
                if self.phase != SessionPhase::Active {
                    return Outcome::Dropped;
                }
                match event {
                    CombatEvent::SkillCast { caster, skill_id, timestamp } => self.on_cast(
                        caster,
                        skill_id,
                        timestamp,
                    ),
                    CombatEvent::Damage {
                        attacker,
                        defender,
                        skill_id,
                        damage,
                        crit,
                        back_attack,
                        front_attack,
                        timestamp,
                    } => self.on_damage(
                        attacker,
                        defender,
                        skill_id,
                        damage,
                        crit,
                        back_attack,
                        front_attack,
                        timestamp,
                    ),
                    CombatEvent::EffectApply { target, source, effect, timestamp } => {
                        self.on_effect_apply(target, source, effect, timestamp);
                        Outcome::Applied
                    },
                    CombatEvent::EffectExpire { target, effect_id } => {
                        self.on_effect_expire(target, effect_id);
                        Outcome::Applied
                    },
                    CombatEvent::UnknownEffect { effect_id } => {
                        self.note_unknown_effect(effect_id);
                        Outcome::Applied
                    },
                    CombatEvent::Fall { id, timestamp, down_time, stand_up_time, move_time } => self.on_fall(
                        id,
                        timestamp,
                        down_time,
                        stand_up_time,
                        move_time,
                    ),
                    CombatEvent::Recover { id, timestamp } => self.on_recover(id, timestamp),
                    CombatEvent::Death { id, timestamp } => self.on_death(id, timestamp),
                    _ => Outcome::Dropped,
                }
            },
        }
    }

    /// The records of every participant seen so far.
    pub fn records(&self) -> (r: &Vec<EncounterEntity>)
        ensures
            r@ == self.entities@,
    {
        &self.entities
    }

    /// Milliseconds from the start of the session to `now`, zero if `now`
    /// is not later.
    pub open spec fn elapsed(&self, now: i64) -> int {
        if now > self.started_at {
            clamp_i64(now - self.started_at) as int
        } else {
            0
        }
    }

    /// Recomputes damage per second at `now`: of the encounter, of every
    /// participant and of every skill, over the time since the start.
    pub fn refresh_dps(&mut self, now: i64)
        requires
            old(self).wf(),
        ensures
            final(self).wf(),
            final(self).phase == old(self).phase,
            final(self).directory@ == old(self).directory@,
            final(self).effects@ == old(self).effects@,
            final(self).malformed == old(self).malformed,
            final(self).totals == (EncounterDamageStats {
                dps: per_second(old(self).totals.total_damage_dealt as int, old(self).elapsed(now)),
                ..old(self).totals
            }),
            final(self).entities@.len() == old(self).entities@.len(),
            forall|j: int|
                0 <= j < old(self).entities@.len() ==> EncounterEntity::dps_refreshed(
                    old(self).entities@[j],
                    #[trigger] final(self).entities@[j],
                    old(self).elapsed(now),
                ),
    {
        let elapsed: i64 = if now > self.started_at {
            let d = (now as i128) - (self.started_at as i128);
            if d > i64::MAX as i128 {
                i64::MAX
            } else {
                d as i64
            }
        } else {
            0
        };
        self.totals.dps = dps_of(self.totals.total_damage_dealt, elapsed);
        let ghost s0 = self.entities@;
        let mut j: usize = 0;
        while j < self.entities.len()
            invariant
                self.wf(),
                j <= s0.len(),
                self.entities@.len() == s0.len(),
                self.phase == old(self).phase,
                self.directory@ == old(self).directory@,
                self.effects@ == old(self).effects@,
                self.malformed == old(self).malformed,
                self.totals == (EncounterDamageStats {
                    dps: per_second(old(self).totals.total_damage_dealt as int, elapsed as int),
                    ..old(self).totals
                }),
                forall|k: int| j <= k < s0.len() ==> #[trigger] self.entities@[k] == s0[k],
                forall|k: int|
                    0 <= k < j ==> EncounterEntity::dps_refreshed(s0[k], #[trigger] self.entities@[k], elapsed as int),
            decreases s0.len() - j,
        {
            let ghost before = self.entities@[j as int];
            self.entities[j].refresh_dps(elapsed);
            proof {
                let after = self.entities@[j as int];
                assert forall|a: int, b: int| 0 <= a < b < after.skills@.len() implies #[trigger] after.skills@[a].id
                    != #[trigger] after.skills@[b].id by {
                    assert(before.skills@[a].id != before.skills@[b].id);
                }
            }
            j = j + 1;
        }
    }

    /// Discards everything accumulated and starts over, not started.
    pub fn reset(&mut self)
        ensures
            final(self).wf(),
            final(self).phase == SessionPhase::NotStarted,
            final(self).entities@ == Seq::<EncounterEntity>::empty(),
            final(self).directory@ == Map::<u64, crate::entity::Entity>::empty(),
            final(self).malformed == 0,
    {
        *self = EncounterSession::new();
    }

    /// Notes that a hit referred to effect `effect_id`, which the reference
    /// data does not know. Each id is kept once.
    pub fn note_unknown_effect(&mut self, effect_id: u32)
        requires
            old(self).wf(),
        ensures
            final(self).wf(),
            final(self).phase == old(self).phase,
            unknown_noted(*old(self), *final(self), effect_id),
    {
        let mut i: usize = 0;
        while i < self.totals.unknown_buffs.len()
            invariant
                i <= self.totals.unknown_buffs@.len(),
                *self == *old(self),
                self.wf(),
                forall|k: int| 0 <= k < i ==> #[trigger] self.totals.unknown_buffs@[k] != effect_id,
            decreases self.totals.unknown_buffs@.len() - i,
        {
            if self.totals.unknown_buffs[i] == effect_id {
                return;
            }
            i = i + 1;
        }
        self.totals.unknown_buffs.push(effect_id);
    }
}

} // verus!
