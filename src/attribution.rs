//! Damage attribution: splits one hit's damage between the damage the
//! attacker would have dealt unbuffed and the share added by each active
//! damage-affecting effect.
//!
//! Effects are multiplicative layers applied in ascending effect-id order,
//! so the outermost layer is the one with the highest id. Attribution peels
//! layers from the outside in: a layer raising damage by `a` basis points
//! takes `rem - rem * 10000 / (10000 + a)` of what is left, and what remains
//! after the last layer is the base. Integer division rounds the base up
//! rather than crediting an effect with damage it did not add.
use vstd::prelude::*;

verus! {

/// Basis points in a whole: a layer of `BASIS_POINTS` doubles damage.
pub const BASIS_POINTS: u32 = 10000;

/// An effect active at hit time, with the damage increase it grants in
/// basis points. Effects of unknown kind, or that do not touch damage,
/// carry 0 and are credited nothing. `debuff` tells a debuff on the
/// defender from a buff on the attacker.
#[derive(Debug, Clone, Copy, PartialEq, Eq, Structural)]
pub struct DamageLayer {
    pub effect_id: u32,
    pub amp_bp: u32,
    pub debuff: bool,
}

/// One hit's damage, split: the unbuffed base, and `(effect id, credit)`
/// for each layer from the outermost in.
#[derive(Debug, Clone)]
pub struct HitAttribution {
    pub base: i64,
    pub credits: Vec<(u32, i64)>,
}

/// The part of `rem` that a layer of `amp` basis points added.
pub open spec fn layer_share(rem: int, amp: int) -> int {
    rem - rem * (BASIS_POINTS as int) / ((BASIS_POINTS as int) + amp)
}

/// The layer peeled at step `j`: the `j`-th from the outermost.
pub open spec fn peeled(layers: Seq<DamageLayer>, j: int) -> DamageLayer {
    layers[layers.len() - 1 - j]
}

/// What is left of damage `d` after peeling `j` layers.
pub open spec fn remaining(d: int, layers: Seq<DamageLayer>, j: nat) -> int
    decreases j,
{
    if j == 0 {
        d
    } else {
        let r = remaining(d, layers, (j - 1) as nat);
        r - layer_share(r, peeled(layers, j - 1).amp_bp as int)
    }
}

/// The credit of the layer peeled at step `j`.
pub open spec fn step_credit(d: int, layers: Seq<DamageLayer>, j: nat) -> int {
    layer_share(remaining(d, layers, j), peeled(layers, j as int).amp_bp as int)
}

/// Sum of the credits of a list of `(effect id, credit)` pairs.
pub open spec fn credit_sum(s: Seq<(u32, i64)>) -> int
    decreases s.len(),
{
    if s.len() == 0 {
        0
    } else {
        credit_sum(s.drop_last()) + s.last().1
    }
}

proof fn lemma_share_bounds(rem: int, amp: int)
    requires
        0 <= rem,
        0 <= amp,
    ensures
        0 <= layer_share(rem, amp) <= rem,
{
    let b = BASIS_POINTS as int;
    let q = rem * b / (b + amp);
    assert(0 <= rem * b) by (nonlinear_arith)
        requires
            0 <= rem,
            b == 10000,
    ;
    assert(q <= rem) by (nonlinear_arith)
        requires
            0 <= rem,
            0 <= amp,
            b == 10000,
            q == rem * b / (b + amp),
    ;
    assert(0 <= q) by (nonlinear_arith)
        requires
            0 <= rem * b,
            0 <= amp,
            b == 10000,
            q == rem * b / (b + amp),
    ;
}

fn share(rem: i64, amp: u32) -> (r: i64)
    requires
        rem >= 0,
    ensures
        r == layer_share(rem as int, amp as int),
        0 <= r <= rem,
{
    proof {
        lemma_share_bounds(rem as int, amp as int);
    }
    let scaled = (rem as i128) * (BASIS_POINTS as i128);
    let kept = scaled / ((BASIS_POINTS as i128) + (amp as i128));
    (rem as i128 - kept) as i64
}

/// Splits a hit of `damage` across `layers`, given in application order
/// (innermost first). Each layer gets `(effect_id, step_credit)` in peeling
/// order, outermost first; the base is what is left. Nothing is created or
/// lost: the base and the credits add up to `damage`.
pub fn attribute_hit(damage: i64, layers: &Vec<DamageLayer>) -> (r: HitAttribution)
    requires
        damage >= 0,
    ensures
        r.credits@.len() == layers@.len(),
        forall|j: int|
            0 <= j < layers@.len() ==> #[trigger] r.credits@[j] == (
                peeled(layers@, j).effect_id,
                step_credit(damage as int, layers@, j as nat) as i64,
            ),
        r.base == remaining(damage as int, layers@, layers@.len()),
        r.base >= 0,
        r.base + credit_sum(r.credits@) == damage,
{
    let n = layers.len();
    let mut credits: Vec<(u32, i64)> = Vec::new();
    let mut rem: i64 = damage;
    let mut j: usize = 0;
    while j < n
        invariant
            n == layers@.len(),
            j <= n,
            0 <= rem <= damage,
            rem == remaining(damage as int, layers@, j as nat),
            credits@.len() == j,
            forall|k: int|
                0 <= k < j ==> #[trigger] credits@[k] == (
                    peeled(layers@, k).effect_id,
                    step_credit(damage as int, layers@, k as nat) as i64,
                ),
            rem + credit_sum(credits@) == damage,
        decreases n - j,
    {
        let layer = layers[n - 1 - j];
        let c = share(rem, layer.amp_bp);
        let ghost before = credits@;
        credits.push((layer.effect_id, c));
        assert(credits@.drop_last() =~= before);
        rem = rem - c;
        j = j + 1;
    }
    HitAttribution { base: rem, credits }
}

} // verus!
