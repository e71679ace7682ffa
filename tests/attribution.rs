use meter_core::attribution::{attribute_hit, DamageLayer};
use meter_core::credit::{saturating_add, CreditMap};

fn layer(effect_id: u32, amp_bp: u32, debuff: bool) -> DamageLayer {
    DamageLayer { effect_id, amp_bp, debuff }
}

#[test]
fn three_effects_and_base_sum_to_damage() {
    let layers = vec![layer(10, 1000, false), layer(20, 500, false), layer(30, 2000, true)];
    let r = attribute_hit(1000, &layers);
    assert_eq!(r.credits, vec![(30, 167), (20, 40), (10, 73)]);
    assert_eq!(r.base, 720);
    let total: i64 = r.base + r.credits.iter().map(|c| c.1).sum::<i64>();
    assert_eq!(total, 1000);
}

#[test]
fn no_layers_leaves_all_to_base() {
    let r = attribute_hit(12345, &Vec::new());
    assert_eq!(r.base, 12345);
    assert!(r.credits.is_empty());
}

#[test]
fn unknown_effect_gets_nothing() {
    let r = attribute_hit(1000, &vec![layer(7, 0, false)]);
    assert_eq!(r.credits, vec![(7, 0)]);
    assert_eq!(r.base, 1000);
}

#[test]
fn doubling_layer_takes_half() {
    let r = attribute_hit(1000, &vec![layer(1, 10_000, false)]);
    assert_eq!(r.credits, vec![(1, 500)]);
    assert_eq!(r.base, 500);
}

#[test]
fn large_hit_is_conserved() {
    let layers = vec![layer(1, 123, false), layer(2, 4567, true), layer(3, 89, false), layer(4, 65_000, true)];
    let damage = i64::MAX / 3;
    let r = attribute_hit(damage, &layers);
    let total: i128 = r.base as i128 + r.credits.iter().map(|c| c.1 as i128).sum::<i128>();
    assert_eq!(total, damage as i128);
}

#[test]
fn credit_map_accumulates() {
    let mut m = CreditMap::new();
    assert_eq!(m.credit_of(5), 0);
    m.add(5, 40);
    m.add(5, 2);
    m.add(6, 7);
    assert_eq!(m.credit_of(5), 42);
    assert_eq!(m.credit_of(6), 7);
    let copy = m.clone();
    assert_eq!(copy.credit_of(5), 42);
    m.add(6, i64::MAX);
    assert_eq!(m.credit_of(6), i64::MAX);
}

#[test]
fn saturating_add_bounds() {
    assert_eq!(saturating_add(2, 3), 5);
    assert_eq!(saturating_add(i64::MAX, 1), i64::MAX);
    assert_eq!(saturating_add(i64::MIN, -1), i64::MIN);
}
