//! Buffs and debuffs currently applied, per target.
//!
//! Instances are kept ordered by effect id, so the damage layers active at a
//! hit come out in ascending id order, the order in which attribution applies
//! them.
use crate::attribution::DamageLayer;
use vstd::prelude::*;

verus! {

broadcast use vstd::seq_lib::group_seq_properties;

#[derive(Debug, Clone, Copy, PartialEq, Eq, Structural)]
pub enum EffectCategory {
    Buff,
    Debuff,
}

/// A status effect as the reference data describes it. Effects sharing a
/// non-zero `unique_group` replace one another on a target; group 0 effects
/// stack. `duration` is in milliseconds; 0 or less means it lasts until
/// expired. `amp_bp` is the damage increase it grants, in basis points.
#[derive(Debug, Clone, Copy, PartialEq, Eq, Structural)]
pub struct StatusEffect {
    pub id: u32,
    pub category: EffectCategory,
    pub unique_group: u32,
    pub duration: i64,
    pub amp_bp: u32,
}

/// One application of an effect to a target.
#[derive(Debug, Clone, Copy, PartialEq, Eq, Structural)]
pub struct EffectInstance {
    pub target_id: u64,
    pub source_id: u64,
    pub effect: StatusEffect,
    pub applied_at: i64,
}

/// Instance `i` is displaced by a new effect of `group` on `target`.
pub open spec fn displaced(i: EffectInstance, target: u64, group: u32) -> bool {
    group != 0 && i.target_id == target && i.effect.unique_group == group
}

/// Instance `i` is the effect `effect_id` on `target`.
pub open spec fn is_instance_of(i: EffectInstance, target: u64, effect_id: u32) -> bool {
    i.target_id == target && i.effect.id == effect_id
}

/// Instance `i` is in force at `now`: applied no later than `now`, and
/// either lasting until expired or with its duration not yet run out.
pub open spec fn in_force(i: EffectInstance, now: int) -> bool {
    &&& i.applied_at <= now
    &&& (i.effect.duration <= 0 || now < i.applied_at + i.effect.duration)
}

/// Instance `i` affects a hit by `attacker` on `defender` at `now`: a buff
/// on the attacker or a debuff on the defender, in force.
pub open spec fn affects_hit(i: EffectInstance, attacker: u64, defender: u64, now: int) -> bool {
    &&& in_force(i, now)
    &&& ((i.effect.category == EffectCategory::Buff && i.target_id == attacker) || (i.effect.category
        == EffectCategory::Debuff && i.target_id == defender))
}

pub open spec fn layer_of(i: EffectInstance) -> DamageLayer {
    DamageLayer {
        effect_id: i.effect.id,
        amp_bp: i.effect.amp_bp,
        debuff: i.effect.category == EffectCategory::Debuff,
    }
}

/// The layers that act on a hit, in the order of `s`.
pub open spec fn hit_layers(s: Seq<EffectInstance>, attacker: u64, defender: u64, now: int) -> Seq<
    DamageLayer,
> {
    s.filter_map(
        |i: EffectInstance|
            if affects_hit(i, attacker, defender, now) {
                Some(layer_of(i))
            } else {
                None
            },
    )
}

/// Ordered by effect id.
pub open spec fn sorted_by_id(s: Seq<EffectInstance>) -> bool {
    forall|a: int, b: int| 0 <= a < b < s.len() ==> #[trigger] s[a].effect.id <= #[trigger] s[b].effect.id
}

/// `r` is `s` with `x` inserted after every instance of an id no greater
/// than its own and before every instance of a greater id.
pub open spec fn inserted_in_order(s: Seq<EffectInstance>, x: EffectInstance, r: Seq<EffectInstance>) -> bool {
    exists|p: int|
        0 <= p <= s.len() && r == s.insert(p, x) && (forall|k: int| 0 <= k < p ==> #[trigger] s[k].effect.id
            <= x.effect.id) && (forall|k: int| p <= k < s.len() ==> #[trigger] s[k].effect.id > x.effect.id)
}

proof fn lemma_filter_sorted(s: Seq<EffectInstance>, pred: spec_fn(EffectInstance) -> bool)
    requires
        sorted_by_id(s),
    ensures
        sorted_by_id(s.filter(pred)),
    decreases s.len(),
{
    reveal(Seq::filter);
    if s.len() > 0 {
        let rest = s.drop_last();
        lemma_filter_sorted(rest, pred);
        let f = rest.filter(pred);
        if pred(s.last()) {
            assert forall|a: int, b: int| 0 <= a < b < f.len() + 1 implies #[trigger] f.push(s.last())[a].effect.id
                <= #[trigger] f.push(s.last())[b].effect.id by {
                if b == f.len() {
                    assert(f.contains(f[a]));
                    rest.lemma_filter_contains_rev(pred, f[a]);
                    let m = choose|m: int| 0 <= m < rest.len() && rest[m] == f[a];
                    assert(s[m].effect.id <= s[s.len() - 1].effect.id);
                }
            }
        }
    }
}

proof fn lemma_filter_keeps_all(s: Seq<EffectInstance>, pred: spec_fn(EffectInstance) -> bool)
    requires
        forall|k: int| 0 <= k < s.len() ==> pred(#[trigger] s[k]),
    ensures
        s.filter(pred) == s,
    decreases s.len(),
{
    reveal(Seq::filter);
    if s.len() > 0 {
        lemma_filter_keeps_all(s.drop_last(), pred);
        assert(s.drop_last().push(s.last()) =~= s);
    }
}

proof fn lemma_insert_position_unique(
    s: Seq<EffectInstance>,
    x: EffectInstance,
    r1: Seq<EffectInstance>,
    r2: Seq<EffectInstance>,
)
    requires
        inserted_in_order(s, x, r1),
        inserted_in_order(s, x, r2),
    ensures
        r1 == r2,
{
    let p1 = choose|p: int|
        0 <= p <= s.len() && r1 == s.insert(p, x) && (forall|k: int| 0 <= k < p ==> #[trigger] s[k].effect.id
            <= x.effect.id) && (forall|k: int| p <= k < s.len() ==> #[trigger] s[k].effect.id > x.effect.id);
    let p2 = choose|p: int|
        0 <= p <= s.len() && r2 == s.insert(p, x) && (forall|k: int| 0 <= k < p ==> #[trigger] s[k].effect.id
            <= x.effect.id) && (forall|k: int| p <= k < s.len() ==> #[trigger] s[k].effect.id > x.effect.id);
    if p1 < p2 {
        assert(s[p1].effect.id > x.effect.id);
    } else if p2 < p1 {
        assert(s[p2].effect.id > x.effect.id);
    }
}

/// Applying the same effect of a non-zero group to the same target twice
/// leaves the tracker as applying it once: a repeated application of a
/// non-stacking effect is a no-op.
pub proof fn lemma_reapply_is_noop(
    s: Seq<EffectInstance>,
    x: EffectInstance,
    once: Seq<EffectInstance>,
    twice: Seq<EffectInstance>,
)
    requires
        sorted_by_id(s),
        x.effect.unique_group != 0,
        inserted_in_order(
            s.filter(|i: EffectInstance| !displaced(i, x.target_id, x.effect.unique_group)),
            x,
            once,
        ),
        inserted_in_order(
            once.filter(|i: EffectInstance| !displaced(i, x.target_id, x.effect.unique_group)),
            x,
            twice,
        ),
    ensures
        twice == once,
{
    let pred = |i: EffectInstance| !displaced(i, x.target_id, x.effect.unique_group);
    let kept = s.filter(pred);
    let p = choose|p: int|
        0 <= p <= kept.len() && once == kept.insert(p, x) && (forall|k: int| 0 <= k < p ==> #[trigger] kept[k].effect.id
            <= x.effect.id) && (forall|k: int| p <= k < kept.len() ==> #[trigger] kept[k].effect.id > x.effect.id);
    broadcast use vstd::seq_lib::group_filter_ensures;
    assert forall|k: int| 0 <= k < kept.len() implies pred(#[trigger] kept[k]) by {}
    lemma_filter_keeps_all(kept.take(p), pred);
    lemma_filter_keeps_all(kept.skip(p), pred);
    assert(once =~= kept.take(p) + seq![x] + kept.skip(p));
    Seq::filter_distributes_over_add(kept.take(p) + seq![x], kept.skip(p), pred);
    Seq::filter_distributes_over_add(kept.take(p), seq![x], pred);
    reveal(Seq::filter);
    assert(seq![x].drop_last() =~= Seq::<EffectInstance>::empty());
    assert(seq![x].filter(pred) =~= Seq::<EffectInstance>::empty());
    assert(kept.take(p) + kept.skip(p) =~= kept);
    assert(once.filter(pred) == kept);
    lemma_insert_position_unique(kept, x, once, twice);
}

/// Layers ordered by effect id.
pub open spec fn ascending_layers(l: Seq<DamageLayer>) -> bool {
    forall|a: int, b: int| 0 <= a < b < l.len() ==> #[trigger] l[a].effect_id <= #[trigger] l[b].effect_id
}

proof fn lemma_layers_ascending(s: Seq<EffectInstance>, attacker: u64, defender: u64, now: int)
    requires
        sorted_by_id(s),
    ensures
        ascending_layers(hit_layers(s, attacker, defender, now)),
    decreases s.len(),
{
    let f = |i: EffectInstance|
        if affects_hit(i, attacker, defender, now) {
            Some(layer_of(i))
        } else {
            None
        };
    assert(hit_layers(s, attacker, defender, now) == s.filter_map(f));
    if s.len() > 0 {
        let rest = s.drop_last();
        lemma_layers_ascending(rest, attacker, defender, now);
        assert(hit_layers(rest, attacker, defender, now) == rest.filter_map(f));
        let prev = rest.filter_map(f);
        let last = s.last();
        if affects_hit(last, attacker, defender, now) {
            let r = prev + seq![layer_of(last)];
            assert(s.filter_map(f) == r);
            assert forall|a: int, b: int| 0 <= a < b < r.len() implies #[trigger] r[a].effect_id
                <= #[trigger] r[b].effect_id by {
                if b == prev.len() {
                    assert(prev.contains(prev[a]));
                    rest.lemma_filter_map_contains(f, prev[a]);
                    let t = choose|t: EffectInstance| #[trigger] rest.contains(t) && f(t) == Some(prev[a]);
                    let m = choose|m: int| 0 <= m < rest.len() && rest[m] == t;
                    assert(s[m].effect.id <= s[s.len() - 1].effect.id);
                }
            }
        }
    }
}

/// The effects applied to every target.
pub struct StatusEffectTracker {
    instances: Vec<EffectInstance>,
}

impl View for StatusEffectTracker {
    type V = Seq<EffectInstance>;

    closed spec fn view(&self) -> Seq<EffectInstance> {
        self.instances@
    }
}

impl StatusEffectTracker {
    pub open spec fn wf(&self) -> bool {
        sorted_by_id(self@)
    }

    pub fn new() -> (r: StatusEffectTracker)
        ensures
            r@ == Seq::<EffectInstance>::empty(),
            r.wf(),
    {
        StatusEffectTracker { instances: Vec::new() }
    }

    /// Applies `effect` from `source_id` to `target_id` at `timestamp`. An
    /// effect of a non-zero group first displaces every instance of that
    /// group on the target; group 0 effects stack.
    pub fn apply(&mut self, target_id: u64, effect: StatusEffect, source_id: u64, timestamp: i64)
        requires
            old(self).wf(),
        ensures
            final(self).wf(),
            inserted_in_order(
                old(self)@.filter(|i: EffectInstance| !displaced(i, target_id, effect.unique_group)),
                EffectInstance { target_id, source_id, effect, applied_at: timestamp },
                final(self)@,
            ),
    {
        let ghost s = self.instances@;
        let ghost pred = |i: EffectInstance| !displaced(i, target_id, effect.unique_group);
        let mut kept: Vec<EffectInstance> = Vec::new();
        let mut i: usize = 0;
        while i < self.instances.len()
            invariant
                self.instances@ == s,
                i <= s.len(),
                kept@ == s.take(i as int).filter(pred),
                pred == (|i: EffectInstance| !displaced(i, target_id, effect.unique_group)),
            decreases s.len() - i,
        {
            let x = self.instances[i];
            proof {
                s.take(i as int).lemma_filter_push(x, pred);
                assert(s.take(i as int + 1) =~= s.take(i as int).push(x));
            }
            if !(effect.unique_group != 0 && x.target_id == target_id && x.effect.unique_group
                == effect.unique_group) {
                kept.push(x);
            }
            i = i + 1;
        }
        assert(s.take(s.len() as int) =~= s);
        proof {
            lemma_filter_sorted(s, pred);
        }
        let new_instance = EffectInstance { target_id, source_id, effect, applied_at: timestamp };
        let mut p: usize = 0;
        while p < kept.len() && kept[p].effect.id <= effect.id
            invariant
                p <= kept@.len(),
                sorted_by_id(kept@),
                forall|k: int| 0 <= k < p ==> #[trigger] kept@[k].effect.id <= effect.id,
            decreases kept@.len() - p,
        {
            p = p + 1;
        }
        let ghost before = kept@;
        proof {
            assert forall|k: int| p <= k < before.len() implies #[trigger] before[k].effect.id > effect.id by {
                assert(before[p as int].effect.id <= before[k].effect.id);
            }
        }
        kept.insert(p, new_instance);
        assert(kept@ == before.insert(p as int, new_instance));
        assert forall|a: int, b: int| 0 <= a < b < kept@.len() implies #[trigger] kept@[a].effect.id
            <= #[trigger] kept@[b].effect.id by {
            if a < p && b > p {
                assert(kept@[b] == before[b - 1]);
            } else if a > p {
                assert(kept@[a] == before[a - 1]);
                assert(kept@[b] == before[b - 1]);
            }
        }
        self.instances = kept;
    }

    /// Removes every instance of `effect_id` on `target_id`.
    pub fn expire(&mut self, target_id: u64, effect_id: u32)
        requires
            old(self).wf(),
        ensures
            final(self).wf(),
            final(self)@ == old(self)@.filter(|i: EffectInstance| !is_instance_of(i, target_id, effect_id)),
    {
        let ghost s = self.instances@;
        let ghost pred = |i: EffectInstance| !is_instance_of(i, target_id, effect_id);
        let mut kept: Vec<EffectInstance> = Vec::new();
        let mut i: usize = 0;
        while i < self.instances.len()
            invariant
                self.instances@ == s,
                i <= s.len(),
                kept@ == s.take(i as int).filter(pred),
                pred == (|i: EffectInstance| !is_instance_of(i, target_id, effect_id)),
            decreases s.len() - i,
        {
            let x = self.instances[i];
            proof {
                s.take(i as int).lemma_filter_push(x, pred);
                assert(s.take(i as int + 1) =~= s.take(i as int).push(x));
            }
            if !(x.target_id == target_id && x.effect.id == effect_id) {
                kept.push(x);
            }
            i = i + 1;
        }
        assert(s.take(s.len() as int) =~= s);
        proof {
            lemma_filter_sorted(s, pred);
        }
        self.instances = kept;
    }

    /// The damage layers acting on a hit by `attacker` on `defender` at
    /// `now`, in ascending effect-id order.
    pub fn hit_layers(&self, attacker: u64, defender: u64, now: i64) -> (r: Vec<DamageLayer>)
        requires
            self.wf(),
        ensures
            r@ == hit_layers(self@, attacker, defender, now as int),
            ascending_layers(r@),
    {
        let ghost s = self.instances@;
        let ghost f = |i: EffectInstance|
            if affects_hit(i, attacker, defender, now as int) {
                Some(layer_of(i))
            } else {
                None
            };
        let mut out: Vec<DamageLayer> = Vec::new();
        let mut i: usize = 0;
        while i < self.instances.len()
            invariant
                self.instances@ == s,
                i <= s.len(),
                out@ == s.take(i as int).filter_map(f),
                f == (|i: EffectInstance|
                    if affects_hit(i, attacker, defender, now as int) {
                        Some(layer_of(i))
                    } else {
                        None
                    }),
            decreases s.len() - i,
        {
            let x = self.instances[i];
            proof {
                s.lemma_filter_map_take_succ(f, i as int);
            }
            let started = x.applied_at <= now;
            let lasting = x.effect.duration <= 0 || (now as i128) < (x.applied_at as i128) + (
            x.effect.duration as i128);
            let relevant = (x.effect.category == EffectCategory::Buff && x.target_id == attacker) || (
            x.effect.category == EffectCategory::Debuff && x.target_id == defender);
            if started && lasting && relevant {
                out.push(
                    DamageLayer {
                        effect_id: x.effect.id,
                        amp_bp: x.effect.amp_bp,
                        debuff: x.effect.category == EffectCategory::Debuff,
                    },
                );
            }
            i = i + 1;
        }
        assert(s.take(s.len() as int) =~= s);
        proof {
            lemma_layers_ascending(s, attacker, defender, now as int);
        }
        out
    }
}

} // verus!
