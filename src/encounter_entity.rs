//! The display-oriented record of one participant: identity copied from
//! the live entity, plus everything event processing accumulated for it.
use crate::attribution::{attribute_hit, peeled, remaining, step_credit, DamageLayer};
use crate::credit::{clamp_i64, credit_in, saturating_add};
use crate::entity::{Entity, EntityType};
use crate::incapacitation::{
    after_death, after_fall, after_recovery, cap_to_death, fall_total, record_fall,
    record_recovery, timeline_wf,
};
use crate::player::ArkPassiveData;
use crate::skill::{hit_counted, hit_logged, ledger_step, ledger_wf, record_hit, Skill, SkillHit};
use crate::stats::{dps_of, per_second, DamageStats, SkillStats};
use vstd::prelude::*;

verus! {

/// One participant of an encounter. Gear score is in hundredths of a level.
/// `class` is the class's display name, filled from reference data by the
/// presentation layer.
#[derive(Debug, Clone, Default)]
pub struct EncounterEntity {
    pub id: u64,
    pub character_id: u64,
    pub npc_id: u32,
    pub name: String,
    pub entity_type: EntityType,
    pub class_id: u32,
    pub class: String,
    pub gear_score: i64,
    pub current_hp: i64,
    pub max_hp: i64,
    pub current_shield: u64,
    pub is_dead: bool,
    pub skills: Vec<Skill>,
    pub damage_stats: DamageStats,
    pub skill_stats: SkillStats,
    pub engraving_data: Option<Vec<String>>,
    pub gear_hash: Option<String>,
    pub ark_passive_active: Option<bool>,
    pub ark_passive_data: Option<ArkPassiveData>,
    pub spec: Option<String>,
}

/// Whether the character has the Unicode `Uppercase` property.
pub uninterp spec fn upper_case(c: char) -> bool;

/// Relies on char::is_uppercase: whether `c` has the Unicode `Uppercase`
/// property, a function of `c` alone.
#[verifier::external_body]
fn is_upper(c: char) -> (r: bool)
    ensures
        r == upper_case(c),
{
    c.is_uppercase()
}

/// The placeholder that stands for a name the client has not resolved.
pub open spec fn placeholder_name() -> Seq<char> {
    seq!['Y', 'o', 'u']
}

/// The name starts with an uppercase character.
pub open spec fn capitalized(name: Seq<char>) -> bool {
    name.len() > 0 && upper_case(name[0])
}

impl EncounterEntity {
    pub open spec fn spec_is_valid(&self) -> bool {
        &&& ((self.entity_type == EntityType::Player && self.class_id > 0) || self.entity_type
            == EntityType::Esther || self.entity_type == EntityType::Boss)
        &&& self.damage_stats.damage_dealt > 0
    }

    /// A participant worth reporting: a player with a known class, an
    /// Esther or a boss, that dealt damage.
    pub fn is_valid(&self) -> (r: bool)
        ensures
            r == self.spec_is_valid(),
    {
        ((self.entity_type == EntityType::Player && self.class_id > 0) || self.entity_type
            == EntityType::Esther || self.entity_type == EntityType::Boss)
            && self.damage_stats.damage_dealt > 0
    }

    /// Every check of `is_valid_player` but the capital first letter.
    pub open spec fn player_fields_valid(&self) -> bool {
        &&& self.gear_score >= 0
        &&& self.entity_type == EntityType::Player
        &&& self.character_id != 0
        &&& self.class_id != 0
        &&& self.name@ != placeholder_name()
    }

    /// A fully resolved player record, given whether its name starts with
    /// an uppercase character.
    pub fn is_valid_player_given(&self, starts_upper: bool) -> (r: bool)
        ensures
            r == (self.player_fields_valid() && starts_upper),
    {
        let placeholder = "You".to_owned();
        proof {
            reveal_strlit("You");
            assert(placeholder@ =~= placeholder_name());
        }
        self.gear_score >= 0 && self.entity_type == EntityType::Player && self.character_id != 0
            && self.class_id != 0 && !(self.name == placeholder) && starts_upper
    }

    /// A fully resolved player record: non-negative gear score, a character
    /// id, a class, a resolved name that starts with an uppercase letter.
    pub fn is_valid_player(&self) -> (r: bool)
        ensures
            r == (self.player_fields_valid() && capitalized(self.name@)),
    {
        let mut chars = self.name.as_str().chars();
        let starts_upper = match chars.next() {
            Some(c) => is_upper(c),
            None => false,
        };
        self.is_valid_player_given(starts_upper)
    }

    /// A player with a class and hit points, or the local player by name,
    /// that dealt damage.
    pub fn is_active_player(&self, local_player: &str) -> (r: bool)
        ensures
            r == (((self.entity_type == EntityType::Player && self.class_id != 0 && self.max_hp > 0)
                || self.name@ == local_player@) && self.damage_stats.damage_dealt > 0),
    {
        let local = local_player.to_owned();
        ((self.entity_type == EntityType::Player && self.class_id != 0 && self.max_hp > 0) || self.name
            == local) && self.damage_stats.damage_dealt > 0
    }

    /// A player with a class and hit points, the local player, or an
    /// Esther, whatever damage they dealt; or a boss with hit points that
    /// dealt damage.
    pub fn is_relevant_combat_entity(&self, local_player: &str) -> (r: bool)
        ensures
            r == ((self.entity_type == EntityType::Player && self.class_id != 0 && self.max_hp > 0)
                || self.name@ == local_player@ || self.entity_type == EntityType::Esther || (
            self.entity_type == EntityType::Boss && self.max_hp > 0 && self.damage_stats.damage_dealt
                > 0)),
    {
        let local = local_player.to_owned();
        (self.entity_type == EntityType::Player && self.class_id != 0 && self.max_hp > 0) || self.name
            == local || self.entity_type == EntityType::Esther || (self.entity_type == EntityType::Boss
            && self.max_hp > 0 && self.damage_stats.damage_dealt > 0)
    }

    /// A fresh record for `entity`: its identity copied, nothing
    /// accumulated yet.
    pub fn from_entity(entity: &Entity) -> (r: EncounterEntity)
        ensures
            r.id == entity.id,
            r.name == entity.name,
            r.entity_type == entity.entity_type,
            r.npc_id == entity.npc_id,
            r.class_id == entity.class_id,
            r.gear_score == entity.gear_level,
            r.character_id == entity.character_id,
            r.class@ == Seq::<char>::empty(),
            r.current_hp == 0,
            r.max_hp == 0,
            !r.is_dead,
            r.skills@ == Seq::<Skill>::empty(),
            r.damage_stats.is_empty(),
    {
        EncounterEntity {
            id: entity.id,
            character_id: entity.character_id,
            npc_id: entity.npc_id,
            name: entity.name.clone(),
            entity_type: entity.entity_type,
            class_id: entity.class_id,
            class: String::new(),
            gear_score: entity.gear_level,
            current_hp: 0,
            max_hp: 0,
            current_shield: 0,
            is_dead: false,
            skills: Vec::new(),
            damage_stats: DamageStats::new(),
            skill_stats: SkillStats {
                casts: 0,
                hits: 0,
                crits: 0,
                back_attacks: 0,
                front_attacks: 0,
                counters: 0,
                identity_stats: None,
            },
            engraving_data: None,
            gear_hash: None,
            ark_passive_active: None,
            ark_passive_data: None,
            spec: None,
        }
    }

    /// Refreshes the identity fields from the live entity.
    pub fn update(&mut self, new: &Entity)
        ensures
            final(self).id == new.id,
            final(self).character_id == new.character_id,
            final(self).name == new.name,
            final(self).class_id == new.class_id,
            final(self).gear_score == new.gear_level,
            final(self).entity_type == old(self).entity_type,
            final(self).damage_stats == old(self).damage_stats,
            final(self).skills == old(self).skills,
    {
        self.id = new.id;
        self.character_id = new.character_id;
        self.name = new.name.clone();
        self.class_id = new.class_id;
        self.gear_score = new.gear_level;
    }

    /// The timeline is well formed and the death time is a valid instant.
    pub open spec fn timeline_ok(&self) -> bool {
        &&& timeline_wf(self.damage_stats.incapacitations@)
        &&& self.damage_stats.death_time >= 0
    }

    /// Caps every incapacitation still running at the death time to end
    /// there.
    pub fn cap_incapacitation_durations_to_death_time(&mut self)
        requires
            old(self).timeline_ok(),
        ensures
            final(self).timeline_ok(),
            final(self).damage_stats.incapacitations@ == after_death(
                old(self).damage_stats.incapacitations@,
                old(self).damage_stats.death_time as int,
            ),
            final(self).damage_stats.death_time == old(self).damage_stats.death_time,
            final(self).damage_stats.damage_dealt == old(self).damage_stats.damage_dealt,
            final(self).id == old(self).id,
            final(self).is_dead == old(self).is_dead,
            final(self).skills == old(self).skills,
    {
        let death_time = self.damage_stats.death_time;
        cap_to_death(&mut self.damage_stats.incapacitations, death_time);
    }

    /// Records a knockdown at `timestamp` for `down_time` plus the optional
    /// stand-up and move times, in milliseconds; it supersedes the knockdown
    /// still running, if any.
    pub fn update_incapacitation(
        &mut self,
        down_time: i64,
        stand_up_time: Option<i64>,
        move_time: Option<i64>,
        timestamp: i64,
    )
        requires
            old(self).timeline_ok(),
            timestamp >= 0,
            i64::MIN <= fall_total(down_time, stand_up_time, move_time) <= i64::MAX,
        ensures
            final(self).timeline_ok(),
            final(self).damage_stats.incapacitations@ == after_fall(
                old(self).damage_stats.incapacitations@,
                timestamp as int,
                fall_total(down_time, stand_up_time, move_time) as i64,
            ),
            final(self).damage_stats.death_time == old(self).damage_stats.death_time,
            final(self).damage_stats.damage_dealt == old(self).damage_stats.damage_dealt,
            final(self).id == old(self).id,
            final(self).is_dead == old(self).is_dead,
            final(self).skills == old(self).skills,
    {
        record_fall(
            &mut self.damage_stats.incapacitations,
            timestamp,
            down_time,
            stand_up_time,
            move_time,
        );
    }

    /// Ends every running knockdown at `timestamp`, when the entity gets up.
    pub fn shorten_incapacitation(&mut self, timestamp: i64)
        requires
            old(self).timeline_ok(),
            timestamp >= 0,
        ensures
            final(self).timeline_ok(),
            final(self).damage_stats.incapacitations@ == after_recovery(
                old(self).damage_stats.incapacitations@,
                timestamp as int,
            ),
            final(self).damage_stats.death_time == old(self).damage_stats.death_time,
            final(self).damage_stats.damage_dealt == old(self).damage_stats.damage_dealt,
            final(self).id == old(self).id,
            final(self).is_dead == old(self).is_dead,
            final(self).skills == old(self).skills,
    {
        record_recovery(&mut self.damage_stats.incapacitations, timestamp);
    }
}

/// Credit map `m` after the credits of the first `j` layers peeled from a
/// hit of `d` over `layers`, keeping only debuffs or only buffs.
pub open spec fn credited(
    m: Map<u32, i64>,
    d: int,
    layers: Seq<DamageLayer>,
    j: nat,
    debuffs: bool,
) -> Map<u32, i64>
    decreases j,
{
    if j == 0 {
        m
    } else {
        let prev = credited(m, d, layers, (j - 1) as nat, debuffs);
        let layer = peeled(layers, j - 1);
        if layer.debuff == debuffs {
            prev.insert(
                layer.effect_id,
                clamp_i64(credit_in(prev, layer.effect_id) + step_credit(d, layers, (j - 1) as nat) as i64),
            )
        } else {
            prev
        }
    }
}

impl EncounterEntity {
    /// Accounts for hit `hit` of skill `skill_id` that this entity dealt
    /// while `layers` were active: the damage, the skill's record, the
    /// credit each buff and debuff earned, and the damage those effects
    /// added on top of the unbuffed base.
    pub fn record_damage_dealt(&mut self, skill_id: u32, hit: SkillHit, layers: &Vec<DamageLayer>)
        requires
            old(self).timeline_ok(),
            ledger_wf(old(self).skills@),
            hit.damage >= 0,
        ensures
            final(self).timeline_ok(),
            ledger_wf(final(self).skills@),
            final(self).id == old(self).id,
            final(self).entity_type == old(self).entity_type,
            final(self).is_dead == old(self).is_dead,
            final(self).damage_stats.incapacitations == old(self).damage_stats.incapacitations,
            final(self).damage_stats.death_time == old(self).damage_stats.death_time,
            final(self).damage_stats.damage_taken == old(self).damage_stats.damage_taken,
            final(self).damage_stats.damage_dealt == clamp_i64(
                old(self).damage_stats.damage_dealt + hit.damage,
            ),
            final(self).damage_stats.rdps_damage_received == clamp_i64(
                old(self).damage_stats.rdps_damage_received + hit.damage - remaining(
                    hit.damage as int,
                    layers@,
                    layers@.len(),
                ),
            ),
            final(self).damage_stats.buffed_by.entries() == credited(
                old(self).damage_stats.buffed_by.entries(),
                hit.damage as int,
                layers@,
                layers@.len(),
                false,
            ),
            final(self).damage_stats.debuffed_by.entries() == credited(
                old(self).damage_stats.debuffed_by.entries(),
                hit.damage as int,
                layers@,
                layers@.len(),
                true,
            ),
            ledger_step(
                old(self).skills@,
                final(self).skills@,
                skill_id,
                |a: Skill, b: Skill| hit_counted(a, b, hit) && hit_logged(a.skill_cast_log@, b.skill_cast_log@, hit),
            ),
    {
        let damage = hit.damage;
        let att = attribute_hit(damage, layers);
        self.damage_stats.damage_dealt = saturating_add(self.damage_stats.damage_dealt, damage);
        self.damage_stats.rdps_damage_received = saturating_add(
            self.damage_stats.rdps_damage_received,
            damage - att.base,
        );
        let n = layers.len();
        let ghost buffs0 = self.damage_stats.buffed_by.entries();
        let ghost debuffs0 = self.damage_stats.debuffed_by.entries();
        let ghost before = *self;
        let mut j: usize = 0;
        while j < n
            invariant
                n == layers@.len(),
                j <= n,
                att.credits@.len() == n,
                forall|k: int|
                    0 <= k < n ==> #[trigger] att.credits@[k] == (
                        peeled(layers@, k).effect_id,
                        step_credit(damage as int, layers@, k as nat) as i64,
                    ),
                self.damage_stats.buffed_by.entries() == credited(buffs0, damage as int, layers@, j as nat, false),
                self.damage_stats.debuffed_by.entries() == credited(debuffs0, damage as int, layers@, j as nat, true),
                self.skills == before.skills,
                self.id == before.id,
                self.entity_type == before.entity_type,
                self.is_dead == before.is_dead,
                self.damage_stats.incapacitations == before.damage_stats.incapacitations,
                self.damage_stats.death_time == before.damage_stats.death_time,
                self.damage_stats.damage_taken == before.damage_stats.damage_taken,
                self.damage_stats.damage_dealt == before.damage_stats.damage_dealt,
                self.damage_stats.rdps_damage_received == before.damage_stats.rdps_damage_received,
            decreases n - j,
        {
            let (effect_id, credit) = att.credits[j];
            if layers[n - 1 - j].debuff {
                self.damage_stats.debuffed_by.add(effect_id, credit);
            } else {
                self.damage_stats.buffed_by.add(effect_id, credit);
            }
            j = j + 1;
        }
        record_hit(&mut self.skills, skill_id, hit);
    }
}

impl EncounterEntity {
    /// `new` is `old` with its damage per second, and that of each of its
    /// skills, recomputed over `elapsed_ms`.
    pub open spec fn dps_refreshed(old: EncounterEntity, new: EncounterEntity, elapsed_ms: int) -> bool {
        &&& new == (EncounterEntity {
            damage_stats: DamageStats {
                dps: per_second(old.damage_stats.damage_dealt as int, elapsed_ms),
                ..old.damage_stats
            },
            skills: new.skills,
            ..old
        })
        &&& new.skills@.len() == old.skills@.len()
        &&& forall|k: int|
            0 <= k < old.skills@.len() ==> #[trigger] new.skills@[k] == (Skill {
                dps: per_second(old.skills@[k].total_damage as int, elapsed_ms),
                ..old.skills@[k]
            })
    }

    /// Recomputes the damage per second of the entity and of each of its
    /// skills over `elapsed_ms`.
    pub fn refresh_dps(&mut self, elapsed_ms: i64)
        ensures
            Self::dps_refreshed(*old(self), *final(self), elapsed_ms as int),
    {
        self.damage_stats.dps = dps_of(self.damage_stats.damage_dealt, elapsed_ms);
        let ghost s0 = self.skills@;
        let ghost e0 = *self;
        let mut k: usize = 0;
        while k < self.skills.len()
            invariant
                k <= s0.len(),
                self.skills@.len() == s0.len(),
                *self == (EncounterEntity { skills: self.skills, ..e0 }),
                forall|j: int| k <= j < s0.len() ==> #[trigger] self.skills@[j] == s0[j],
                forall|j: int|
                    0 <= j < k ==> #[trigger] self.skills@[j] == (Skill {
                        dps: per_second(s0[j].total_damage as int, elapsed_ms as int),
                        ..s0[j]
                    }),
            decreases s0.len() - k,
        {
            let total = self.skills[k].total_damage;
            self.skills[k].dps = dps_of(total, elapsed_ms);
            k = k + 1;
        }
    }
}

/// An entity that dealt no damage is never reported, whatever its type.
pub proof fn lemma_no_damage_not_valid(e: EncounterEntity)
    requires
        e.damage_stats.damage_dealt == 0,
    ensures
        !e.spec_is_valid(),
{
}

} // verus!
