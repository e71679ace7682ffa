use meter_core::encounter_entity::EncounterEntity;
use meter_core::incapacitation::{cap_to_death, record_fall, record_recovery};
use meter_core::{IncapacitatedEvent, IncapacitationEventType};

fn fall(timestamp: i64, duration: i64) -> IncapacitatedEvent {
    IncapacitatedEvent { event_type: IncapacitationEventType::FallDown, timestamp, duration }
}

fn cc(timestamp: i64, duration: i64) -> IncapacitatedEvent {
    IncapacitatedEvent { event_type: IncapacitationEventType::CrowdControl, timestamp, duration }
}

#[test]
fn second_fall_supersedes_first() {
    let mut events = Vec::new();
    record_fall(&mut events, 1000, 5000, None, None);
    record_fall(&mut events, 3000, 4000, None, None);
    assert_eq!(events, vec![fall(1000, 2000), fall(3000, 4000)]);
}

#[test]
fn fall_total_adds_stand_up_and_move() {
    let mut events = Vec::new();
    record_fall(&mut events, 100, 1000, Some(500), Some(250));
    assert_eq!(events, vec![fall(100, 1750)]);
}

#[test]
fn fall_skips_crowd_control_in_run() {
    let mut events = vec![fall(0, 10_000), cc(1000, 5000)];
    record_fall(&mut events, 2000, 100, None, None);
    assert_eq!(events, vec![fall(0, 2000), cc(1000, 5000), fall(2000, 100)]);
}

#[test]
fn fall_scan_stops_at_ended_window() {
    let mut events = vec![fall(0, 10_000), cc(1000, 100)];
    record_fall(&mut events, 2000, 100, None, None);
    assert_eq!(events, vec![fall(0, 10_000), cc(1000, 100), fall(2000, 100)]);
}

#[test]
fn death_truncates_open_window() {
    let mut events = vec![fall(3000, 4000)];
    cap_to_death(&mut events, 4000);
    assert_eq!(events, vec![fall(3000, 1000)]);
}

#[test]
fn death_truncates_every_window_of_the_run() {
    let mut events = vec![fall(0, 500), cc(1000, 9000), fall(2000, 9000)];
    cap_to_death(&mut events, 3000);
    assert_eq!(events, vec![fall(0, 500), cc(1000, 2000), fall(2000, 1000)]);
}

#[test]
fn cap_to_death_twice_is_once() {
    let mut once = vec![fall(0, 500), cc(1000, 9000), fall(2000, 9000)];
    cap_to_death(&mut once, 3000);
    let mut twice = once.clone();
    cap_to_death(&mut twice, 3000);
    assert_eq!(once, twice);
}

#[test]
fn recovery_without_open_fall_changes_nothing() {
    let mut events = vec![fall(1000, 2000), cc(4000, 3000)];
    let before = events.clone();
    record_recovery(&mut events, 5000);
    assert_eq!(events, before);
    let mut empty: Vec<IncapacitatedEvent> = Vec::new();
    record_recovery(&mut empty, 5000);
    assert!(empty.is_empty());
}

#[test]
fn recovery_ends_open_falls_only() {
    let mut events = vec![fall(1000, 9000), cc(2000, 9000), fall(3000, 9000)];
    record_recovery(&mut events, 4000);
    assert_eq!(events, vec![fall(1000, 3000), cc(2000, 9000), fall(3000, 1000)]);
}

#[test]
fn increasing_falls_never_overlap() {
    let mut events = Vec::new();
    let starts = [0i64, 700, 1500, 1600, 9000, 9100];
    for (k, t) in starts.iter().enumerate() {
        record_fall(&mut events, *t, 2000 + 100 * k as i64, None, None);
    }
    for a in 0..events.len() {
        for b in (a + 1)..events.len() {
            assert!(events[a].timestamp + events[a].duration <= events[b].timestamp);
        }
    }
}

#[test]
fn duration_may_become_zero() {
    let mut events = Vec::new();
    record_fall(&mut events, 1000, 5000, None, None);
    record_fall(&mut events, 1000, 3000, None, None);
    assert_eq!(events, vec![fall(1000, 0), fall(1000, 3000)]);
}

#[test]
fn entity_methods_drive_the_timeline() {
    let mut entity = EncounterEntity::default();
    entity.update_incapacitation(3000, None, None, 3000);
    entity.shorten_incapacitation(5000);
    assert_eq!(entity.damage_stats.incapacitations, vec![fall(3000, 2000)]);
    entity.update_incapacitation(4000, None, None, 6000);
    entity.damage_stats.death_time = 7000;
    entity.cap_incapacitation_durations_to_death_time();
    assert_eq!(entity.damage_stats.incapacitations, vec![fall(3000, 2000), fall(6000, 1000)]);
}
