//! Per-effect damage credit, kept in a hashbrown map from effect id to the
//! damage credited to it.
use vstd::prelude::*;

verus! {

/// Damage credited to each status effect, by effect id.
#[verifier::external_body]
#[derive(Debug)]
pub struct CreditMap {
    inner: hashbrown::HashMap<u32, i64>,
}

/// What a credit map holds.
pub uninterp spec fn credit_entries(m: CreditMap) -> Map<u32, i64>;

/// Relies on hashbrown::HashMap::new: the map starts empty.
#[verifier::external_body]
fn raw_new() -> (r: CreditMap)
    ensures
        credit_entries(r).dom() == Set::<u32>::empty(),
{
    CreditMap { inner: hashbrown::HashMap::new() }
}

/// Relies on hashbrown::HashMap's `Clone`: the copy holds the same entries.
#[verifier::external_body]
fn raw_clone(m: &CreditMap) -> (r: CreditMap)
    ensures
        credit_entries(r) == credit_entries(*m),
{
    CreditMap { inner: m.inner.clone() }
}

/// Relies on hashbrown::HashMap::get: the value stored under `k`, if any.
#[verifier::external_body]
fn raw_get(m: &CreditMap, k: u32) -> (r: Option<i64>)
    ensures
        r == (if credit_entries(*m).contains_key(k) {
            Some(credit_entries(*m)[k])
        } else {
            None
        }),
{
    m.inner.get(&k).copied()
}

/// Relies on hashbrown::HashMap::insert: `v` is stored under `k`, replacing
/// any earlier value, and nothing else changes.
#[verifier::external_body]
fn raw_insert(m: &mut CreditMap, k: u32, v: i64)
    ensures
        credit_entries(*final(m)) == credit_entries(*old(m)).insert(k, v),
{
    m.inner.insert(k, v);
}

/// The credit of `k` in `m`: zero when absent.
pub open spec fn credit_in(m: Map<u32, i64>, k: u32) -> int {
    if m.contains_key(k) {
        m[k] as int
    } else {
        0
    }
}

impl CreditMap {
    pub open spec fn entries(self) -> Map<u32, i64> {
        credit_entries(self)
    }

    pub fn new() -> (r: CreditMap)
        ensures
            r.entries() == Map::<u32, i64>::empty(),
    {
        let r = raw_new();
        assert(r.entries() =~= Map::<u32, i64>::empty());
        r
    }

    /// The damage credited to effect `k`, zero if none.
    pub fn credit_of(&self, k: u32) -> (r: i64)
        ensures
            r == credit_in(self.entries(), k),
    {
        match raw_get(self, k) {
            Some(v) => v,
            None => 0,
        }
    }

    /// Adds `amount` to the credit of effect `k`, saturating at the bounds
    /// of `i64`.
    pub fn add(&mut self, k: u32, amount: i64)
        ensures
            final(self).entries() == old(self).entries().insert(
                k,
                clamp_i64(credit_in(old(self).entries(), k) + amount),
            ),
    {
        let cur = self.credit_of(k);
        raw_insert(self, k, saturating_add(cur, amount));
    }
}

impl Clone for CreditMap {
    fn clone(&self) -> (r: CreditMap)
        ensures
            r.entries() == self.entries(),
    {
        raw_clone(self)
    }
}

impl Default for CreditMap {
    fn default() -> (r: CreditMap)
        ensures
            r.entries() == Map::<u32, i64>::empty(),
    {
        CreditMap::new()
    }
}

/// `x` saturated to the range of `i64`.
pub open spec fn clamp_i64(x: int) -> i64 {
    if x > i64::MAX {
        i64::MAX
    } else if x < i64::MIN {
        i64::MIN
    } else {
        x as i64
    }
}

/// `a + b`, saturated to the range of `i64`.
pub fn saturating_add(a: i64, b: i64) -> (r: i64)
    ensures
        r == clamp_i64(a + b),
{
    let sum = (a as i128) + (b as i128);
    if sum > i64::MAX as i128 {
        i64::MAX
    } else if sum < i64::MIN as i128 {
        i64::MIN
    } else {
        sum as i64
    }
}

} // verus!
