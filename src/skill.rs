//! Per-skill accumulation: totals, maxima, crit and positional counters,
//! and a log of casts, each with the hits that belong to it.
use crate::credit::{clamp_i64, saturating_add, CreditMap};
use crate::misc::{PassiveOption, SkillFeatureOption};
use vstd::prelude::*;

verus! {

/// Longest gap, in milliseconds, between a cast's latest activity and a hit
/// that still belongs to it. A later hit opens an implicit cast.
pub const CAST_WINDOW_MS: i64 = 5000;

/// One cast and the hits it produced. `last` is the time of its latest hit.
#[derive(Debug, Clone, Default)]
pub struct SkillCast {
    pub timestamp: i64,
    pub last: i64,
    pub hits: Vec<SkillHit>,
}

#[derive(Debug, Clone, Default)]
pub struct SkillHit {
    pub timestamp: i64,
    pub damage: i64,
    pub crit: bool,
    pub back_attack: bool,
    pub front_attack: bool,
    pub buffed_by: Vec<u32>,
    pub debuffed_by: Vec<u32>,
    pub rdps_damage_received: i64,
    pub rdps_damage_received_support: i64,
}

/// Reference data of a skill.
#[derive(Debug, Clone, Default)]
pub struct SkillData {
    pub id: i32,
    pub name: Option<String>,
    pub skill_type: String,
    pub desc: Option<String>,
    pub class_id: u32,
    pub icon: Option<String>,
    pub identity_category: Option<String>,
    pub groups: Option<Vec<i32>>,
    pub summon_source_skills: Option<Vec<u32>>,
    pub source_skills: Option<Vec<u32>>,
}

/// What one entity did with one skill.
#[derive(Debug, Clone, Default)]
pub struct Skill {
    pub id: u32,
    pub name: String,
    pub icon: String,
    pub total_damage: i64,
    pub max_damage: i64,
    pub max_damage_cast: i64,
    pub buffed_by: CreditMap,
    pub debuffed_by: CreditMap,
    pub buffed_by_support: i64,
    pub buffed_by_identity: i64,
    pub buffed_by_hat: i64,
    pub debuffed_by_support: i64,
    pub casts: i64,
    pub hits: i64,
    pub crits: i64,
    pub crit_damage: i64,
    pub back_attacks: i64,
    pub front_attacks: i64,
    pub back_attack_damage: i64,
    pub front_attack_damage: i64,
    pub dps: i64,
    pub cast_log: Vec<i32>,
    pub tripod_index: Option<TripodIndex>,
    pub tripod_level: Option<TripodLevel>,
    pub gem_cooldown: Option<u8>,
    pub gem_tier: Option<u8>,
    pub gem_damage: Option<u8>,
    pub gem_tier_dmg: Option<u8>,
    pub tripod_data: Option<Vec<TripodData>>,
    pub summon_sources: Option<Vec<u32>>,
    pub rdps_damage_received: i64,
    pub rdps_damage_received_support: i64,
    pub rdps_damage_given: i64,
    pub skill_cast_log: Vec<SkillCast>,
    pub last_timestamp: i64,
}

#[derive(Debug, Clone, Default)]
pub struct TripodData {
    pub index: u8,
    pub options: Vec<SkillFeatureOption>,
}

#[derive(Debug, Clone, Copy, Default, PartialEq, Eq, Structural)]
pub struct TripodLevel {
    pub first: u16,
    pub second: u16,
    pub third: u16,
}

#[derive(Debug, Clone, Copy, Default, PartialEq, Eq, Structural)]
pub struct TripodIndex {
    pub first: u8,
    pub second: u8,
    pub third: u8,
}

/// Reference data of a skill effect.
#[derive(Debug, Clone, Default)]
pub struct SkillEffectData {
    pub id: i32,
    pub comment: String,
    pub stagger: i32,
    pub source_skills: Option<Vec<u32>>,
    pub directional_mask: Option<i32>,
    pub item_name: Option<String>,
    pub item_desc: Option<String>,
    pub item_type: Option<String>,
    pub icon: Option<String>,
}

/// Reference data of a buff or debuff. `category` is "buff" or "debuff";
/// effects sharing a non-zero `unique_group` replace one another.
#[derive(Debug, Clone, Default)]
pub struct SkillBuffData {
    pub id: i32,
    pub name: Option<String>,
    pub desc: Option<String>,
    pub icon: Option<String>,
    pub icon_show_type: Option<String>,
    pub duration: i32,
    pub category: String,
    pub buff_type: String,
    pub status_effect_values: Option<Vec<i32>>,
    pub buff_category: Option<String>,
    pub target: String,
    pub unique_group: u32,
    pub overlap_flag: i32,
    pub passive_options: Vec<PassiveOption>,
    pub source_skills: Option<Vec<u32>>,
    pub set_name: Option<String>,
}

/// A skill record created on its first cast or hit: nothing accumulated.
pub open spec fn blank_skill(s: Skill, id: u32) -> bool {
    &&& s.id == id
    &&& s.name@ == Seq::<char>::empty()
    &&& s.icon@ == Seq::<char>::empty()
    &&& s.total_damage == 0
    &&& s.max_damage == 0
    &&& s.max_damage_cast == 0
    &&& s.buffed_by.entries() == Map::<u32, i64>::empty()
    &&& s.debuffed_by.entries() == Map::<u32, i64>::empty()
    &&& s.buffed_by_support == 0
    &&& s.buffed_by_identity == 0
    &&& s.buffed_by_hat == 0
    &&& s.debuffed_by_support == 0
    &&& s.casts == 0
    &&& s.hits == 0
    &&& s.crits == 0
    &&& s.crit_damage == 0
    &&& s.back_attacks == 0
    &&& s.front_attacks == 0
    &&& s.back_attack_damage == 0
    &&& s.front_attack_damage == 0
    &&& s.dps == 0
    &&& s.cast_log@ == Seq::<i32>::empty()
    &&& s.tripod_index is None
    &&& s.tripod_level is None
    &&& s.gem_cooldown is None
    &&& s.gem_tier is None
    &&& s.gem_damage is None
    &&& s.gem_tier_dmg is None
    &&& s.tripod_data is None
    &&& s.summon_sources is None
    &&& s.rdps_damage_received == 0
    &&& s.rdps_damage_received_support == 0
    &&& s.rdps_damage_given == 0
    &&& s.skill_cast_log@ == Seq::<SkillCast>::empty()
    &&& s.last_timestamp == 0
}

/// `c` is a cast opened at `t` with the hits `hits`.
pub open spec fn cast_opened(c: SkillCast, t: i64, hits: Seq<SkillHit>) -> bool {
    c.timestamp == t && c.last == t && c.hits@ == hits
}

/// `log` is `old` with one more cast, opened at `t` with the hits `hits`.
pub open spec fn log_extended(old: Seq<SkillCast>, log: Seq<SkillCast>, t: i64, hits: Seq<SkillHit>) -> bool {
    &&& log.len() == old.len() + 1
    &&& forall|k: int| 0 <= k < old.len() ==> #[trigger] log[k] == old[k]
    &&& cast_opened(log.last(), t, hits)
}

/// A hit at `t` belongs to the latest cast of `log`: it comes no earlier
/// than the cast and within `CAST_WINDOW_MS` of the cast's latest activity.
pub open spec fn joins_open_cast(log: Seq<SkillCast>, t: int) -> bool {
    &&& log.len() > 0
    &&& t >= log.last().timestamp
    &&& t - log.last().last <= CAST_WINDOW_MS
}

/// The counters of `new` are those of `old` after hit `h`.
pub open spec fn hit_counted(old: Skill, new: Skill, h: SkillHit) -> bool {
    new == Skill {
        total_damage: clamp_i64(old.total_damage + h.damage),
        max_damage: if h.damage > old.max_damage {
            h.damage
        } else {
            old.max_damage
        },
        hits: clamp_i64(old.hits + 1),
        crits: if h.crit {
            clamp_i64(old.crits + 1)
        } else {
            old.crits
        },
        crit_damage: if h.crit {
            clamp_i64(old.crit_damage + h.damage)
        } else {
            old.crit_damage
        },
        back_attacks: if h.back_attack {
            clamp_i64(old.back_attacks + 1)
        } else {
            old.back_attacks
        },
        back_attack_damage: if h.back_attack {
            clamp_i64(old.back_attack_damage + h.damage)
        } else {
            old.back_attack_damage
        },
        front_attacks: if h.front_attack {
            clamp_i64(old.front_attacks + 1)
        } else {
            old.front_attacks
        },
        front_attack_damage: if h.front_attack {
            clamp_i64(old.front_attack_damage + h.damage)
        } else {
            old.front_attack_damage
        },
        last_timestamp: h.timestamp,
        skill_cast_log: new.skill_cast_log,
        ..old
    }
}

/// The cast log of `new` is that of `old` with hit `h` placed: in the
/// latest cast if it joins it, else in a new implicit cast.
pub open spec fn hit_logged(old: Seq<SkillCast>, new: Seq<SkillCast>, h: SkillHit) -> bool {
    if joins_open_cast(old, h.timestamp as int) {
        &&& new.len() == old.len()
        &&& forall|k: int| 0 <= k < old.len() - 1 ==> #[trigger] new[k] == old[k]
        &&& new.last().timestamp == old.last().timestamp
        &&& new.last().last == (if h.timestamp > old.last().last {
            h.timestamp
        } else {
            old.last().last
        })
        &&& new.last().hits@ == old.last().hits@.push(h)
    } else {
        log_extended(old, new, h.timestamp, seq![h])
    }
}

/// The record of `new` is that of `old` after an explicit cast at `t`.
pub open spec fn cast_counted(old: Skill, new: Skill, t: i64) -> bool {
    &&& new == Skill {
        casts: clamp_i64(old.casts + 1),
        last_timestamp: t,
        skill_cast_log: new.skill_cast_log,
        ..old
    }
    &&& log_extended(old.skill_cast_log@, new.skill_cast_log@, t, Seq::empty())
}

/// No two records of the ledger share a skill id.
pub open spec fn ledger_wf(s: Seq<Skill>) -> bool {
    forall|a: int, b: int| 0 <= a < b < s.len() ==> #[trigger] s[a].id != #[trigger] s[b].id
}

/// `new` is ledger `old` with the record of `id` changed by `step`, created
/// blank first if `id` had none.
pub open spec fn ledger_step(
    old: Seq<Skill>,
    new: Seq<Skill>,
    id: u32,
    step: spec_fn(Skill, Skill) -> bool,
) -> bool {
    if exists|i: int| 0 <= i < old.len() && old[i].id == id {
        exists|i: int|
            0 <= i < old.len() && old[i].id == id && new.len() == old.len() && step(old[i], new[i])
                && forall|k: int| 0 <= k < old.len() && k != i ==> #[trigger] new[k] == old[k]
    } else {
        &&& new.len() == old.len() + 1
        &&& forall|k: int| 0 <= k < old.len() ==> #[trigger] new[k] == old[k]
        &&& exists|b: Skill| blank_skill(b, id) && step(b, new.last())
    }
}

impl Skill {
    pub fn new(id: u32) -> (r: Skill)
        ensures
            blank_skill(r, id),
    {
        Skill {
            id,
            name: String::new(),
            icon: String::new(),
            total_damage: 0,
            max_damage: 0,
            max_damage_cast: 0,
            buffed_by: CreditMap::new(),
            debuffed_by: CreditMap::new(),
            buffed_by_support: 0,
            buffed_by_identity: 0,
            buffed_by_hat: 0,
            debuffed_by_support: 0,
            casts: 0,
            hits: 0,
            crits: 0,
            crit_damage: 0,
            back_attacks: 0,
            front_attacks: 0,
            back_attack_damage: 0,
            front_attack_damage: 0,
            dps: 0,
            cast_log: Vec::new(),
            tripod_index: None,
            tripod_level: None,
            gem_cooldown: None,
            gem_tier: None,
            gem_damage: None,
            gem_tier_dmg: None,
            tripod_data: None,
            summon_sources: None,
            rdps_damage_received: 0,
            rdps_damage_received_support: 0,
            rdps_damage_given: 0,
            skill_cast_log: Vec::new(),
            last_timestamp: 0,
        }
    }

    /// Opens a new cast at `timestamp`.
    pub fn on_cast(&mut self, timestamp: i64)
        ensures
            cast_counted(*old(self), *final(self), timestamp),
    {
        self.casts = saturating_add(self.casts, 1);
        self.last_timestamp = timestamp;
        self.skill_cast_log.push(SkillCast { timestamp, last: timestamp, hits: Vec::new() });
    }

    /// Counts hit `hit` and logs it in the cast it belongs to.
    pub fn on_hit(&mut self, hit: SkillHit)
        ensures
            hit_counted(*old(self), *final(self), hit),
            hit_logged(old(self).skill_cast_log@, final(self).skill_cast_log@, hit),
    {
        let ghost h = hit;
        let damage = hit.damage;
        self.total_damage = saturating_add(self.total_damage, damage);
        if damage > self.max_damage {
            self.max_damage = damage;
        }
        self.hits = saturating_add(self.hits, 1);
        if hit.crit {
            self.crits = saturating_add(self.crits, 1);
            self.crit_damage = saturating_add(self.crit_damage, damage);
        }
        if hit.back_attack {
            self.back_attacks = saturating_add(self.back_attacks, 1);
            self.back_attack_damage = saturating_add(self.back_attack_damage, damage);
        }
        if hit.front_attack {
            self.front_attacks = saturating_add(self.front_attacks, 1);
            self.front_attack_damage = saturating_add(self.front_attack_damage, damage);
        }
        self.last_timestamp = hit.timestamp;
        let ghost log0 = self.skill_cast_log@;
        let n = self.skill_cast_log.len();
        let joins = n > 0 && hit.timestamp >= self.skill_cast_log[n - 1].timestamp && (hit.timestamp as i128)
            - (self.skill_cast_log[n - 1].last as i128) <= CAST_WINDOW_MS as i128;
        if joins {
            let mut cast = self.skill_cast_log.pop().unwrap();
            if hit.timestamp > cast.last {
                cast.last = hit.timestamp;
            }
            cast.hits.push(hit);
            self.skill_cast_log.push(cast);
            assert(forall|k: int| 0 <= k < n - 1 ==> #[trigger] self.skill_cast_log@[k] == log0[k]);
        } else {
            let t = hit.timestamp;
            let mut hits: Vec<SkillHit> = Vec::new();
            hits.push(hit);
            self.skill_cast_log.push(SkillCast { timestamp: t, last: t, hits });
            assert(hits@ =~= seq![h]);
        }
    }
}

/// The index of the record of skill `id`, if the ledger has one.
pub fn find_skill(skills: &Vec<Skill>, id: u32) -> (r: Option<usize>)
    ensures
        match r {
            Some(i) => i < skills@.len() && skills@[i as int].id == id,
            None => forall|k: int| 0 <= k < skills@.len() ==> #[trigger] skills@[k].id != id,
        },
{
    let mut i: usize = 0;
    while i < skills.len()
        invariant
            i <= skills@.len(),
            forall|k: int| 0 <= k < i ==> #[trigger] skills@[k].id != id,
        decreases skills@.len() - i,
    {
        if skills[i].id == id {
            return Some(i);
        }
        i = i + 1;
    }
    None
}

/// Counts an explicit cast of skill `skill_id` at `timestamp`, creating
/// the skill's record on first use.
pub fn record_cast(skills: &mut Vec<Skill>, skill_id: u32, timestamp: i64)
    requires
        ledger_wf(old(skills)@),
    ensures
        ledger_wf(final(skills)@),
        ledger_step(old(skills)@, final(skills)@, skill_id, |a: Skill, b: Skill| cast_counted(a, b, timestamp)),
{
    let ghost s = skills@;
    let ghost step = |a: Skill, b: Skill| cast_counted(a, b, timestamp);
    match find_skill(skills, skill_id) {
        Some(i) => {
            skills[i].on_cast(timestamp);
            assert(step(s[i as int], skills@[i as int]));
        },
        None => {
            let mut sk = Skill::new(skill_id);
            let ghost b = sk;
            sk.on_cast(timestamp);
            skills.push(sk);
            assert(blank_skill(b, skill_id) && step(b, skills@.last()));
        },
    }
}

/// Counts hit `hit` of skill `skill_id` and logs it in its cast, creating
/// the skill's record on first use.
pub fn record_hit(skills: &mut Vec<Skill>, skill_id: u32, hit: SkillHit)
    requires
        ledger_wf(old(skills)@),
    ensures
        ledger_wf(final(skills)@),
        ledger_step(
            old(skills)@,
            final(skills)@,
            skill_id,
            |a: Skill, b: Skill| hit_counted(a, b, hit) && hit_logged(a.skill_cast_log@, b.skill_cast_log@, hit),
        ),
{
    let ghost s = skills@;
    let ghost h = hit;
    let ghost step = |a: Skill, b: Skill| hit_counted(a, b, h) && hit_logged(a.skill_cast_log@, b.skill_cast_log@, h);
    match find_skill(skills, skill_id) {
        Some(i) => {
            skills[i].on_hit(hit);
            assert(step(s[i as int], skills@[i as int]));
        },
        None => {
            let mut sk = Skill::new(skill_id);
            let ghost b = sk;
            sk.on_hit(hit);
            skills.push(sk);
            assert(blank_skill(b, skill_id) && step(b, skills@.last()));
        },
    }
}

} // verus!
