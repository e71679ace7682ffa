//! Per-entity incapacitation timeline with retroactive truncation.
//!
//! The timeline is an ordered sequence of windows during which an entity is
//! unable to act. A later event (a new knockdown, a recovery, the entity's
//! death) can shorten windows that were recorded earlier. Only the trailing
//! run of windows that still extend past the new instant is ever touched:
//! the scan goes backward from the latest window and stops at the first one
//! that has already ended.
use vstd::prelude::*;

verus! {

/// The kind of incapacitation window.
#[derive(Debug, Clone, Copy, PartialEq, Eq, Structural)]
pub enum IncapacitationEventType {
    FallDown,
    CrowdControl,
}

/// One window `[timestamp, timestamp + duration)` in milliseconds.
///
/// The duration may be shortened after the fact; it may end up zero or,
/// with inconsistent timestamps, negative. It is never clamped.
#[derive(Debug, Clone, Copy, PartialEq, Eq, Structural)]
pub struct IncapacitatedEvent {
    pub event_type: IncapacitationEventType,
    pub timestamp: i64,
    pub duration: i64,
}

/// The instant at which a window ends.
pub open spec fn end_of(e: IncapacitatedEvent) -> int {
    e.timestamp + e.duration
}

pub open spec fn is_fall(e: IncapacitatedEvent) -> bool {
    e.event_type == IncapacitationEventType::FallDown
}

/// Window `j` belongs to the trailing run of windows that all still extend
/// past instant `t`.
pub open spec fn in_run(s: Seq<IncapacitatedEvent>, t: int, j: int) -> bool {
    &&& 0 <= j < s.len()
    &&& forall|k: int| j <= k < s.len() ==> #[trigger] end_of(s[k]) > t
}

/// The window made to end exactly at `t`.
pub open spec fn truncated(e: IncapacitatedEvent, t: int) -> IncapacitatedEvent {
    IncapacitatedEvent { duration: (t - e.timestamp) as i64, ..e }
}

/// Timestamps are non-negative: every difference of two of them fits in `i64`.
pub open spec fn timeline_wf(s: Seq<IncapacitatedEvent>) -> bool {
    forall|j: int| 0 <= j < s.len() ==> #[trigger] s[j].timestamp >= 0
}

/// Window `j` is the knockdown that a new knockdown at `t` supersedes: the
/// latest knockdown inside the trailing run.
pub open spec fn superseded(s: Seq<IncapacitatedEvent>, t: int, j: int) -> bool {
    &&& in_run(s, t, j)
    &&& is_fall(s[j])
    &&& forall|k: int| j < k < s.len() ==> !is_fall(#[trigger] s[k])
}

/// The timeline after a knockdown at `t` lasting `total` milliseconds.
pub open spec fn after_fall(s: Seq<IncapacitatedEvent>, t: int, total: i64) -> Seq<IncapacitatedEvent> {
    s.map(|j: int, e: IncapacitatedEvent| if superseded(s, t, j) { truncated(e, t) } else { e }).push(
        IncapacitatedEvent {
            event_type: IncapacitationEventType::FallDown,
            timestamp: t as i64,
            duration: total,
        },
    )
}

/// The timeline after a recovery at `t`: every knockdown of the trailing run
/// ends at `t`.
pub open spec fn after_recovery(s: Seq<IncapacitatedEvent>, t: int) -> Seq<IncapacitatedEvent> {
    s.map(|j: int, e: IncapacitatedEvent| if in_run(s, t, j) && is_fall(e) { truncated(e, t) } else { e })
}

/// The timeline after death at `t`: every window of the trailing run ends at `t`.
pub open spec fn after_death(s: Seq<IncapacitatedEvent>, t: int) -> Seq<IncapacitatedEvent> {
    s.map(|j: int, e: IncapacitatedEvent| if in_run(s, t, j) { truncated(e, t) } else { e })
}

/// Total length of a knockdown: the down time plus the optional stand-up and
/// move times.
pub open spec fn fall_total(down: i64, stand_up: Option<i64>, move_time: Option<i64>) -> int {
    down + match stand_up { Some(x) => x as int, None => 0 } + match move_time {
        Some(x) => x as int,
        None => 0,
    }
}

/// Whether window `e` still extends past `t`, without overflow.
fn ends_after(e: &IncapacitatedEvent, t: i64) -> (r: bool)
    ensures
        r == (end_of(*e) > t),
{
    (e.timestamp as i128) + (e.duration as i128) > (t as i128)
}


/// Records a knockdown at `timestamp` lasting `down_time` plus the optional
/// stand-up and move times (all in milliseconds).
///
/// The latest knockdown of the trailing run of windows that extend past
/// `timestamp` is superseded: it now ends at `timestamp`. Crowd-control
/// windows are left as they are. The new knockdown is appended.
pub fn record_fall(
    events: &mut Vec<IncapacitatedEvent>,
    timestamp: i64,
    down_time: i64,
    stand_up_time: Option<i64>,
    move_time: Option<i64>,
)
    requires
        timeline_wf(old(events)@),
        timestamp >= 0,
        i64::MIN <= fall_total(down_time, stand_up_time, move_time) <= i64::MAX,
    ensures
        final(events)@ == after_fall(
            old(events)@,
            timestamp as int,
            fall_total(down_time, stand_up_time, move_time) as i64,
        ),
        timeline_wf(final(events)@),
{
    let ghost s = events@;
    let stand_up: i128 = match stand_up_time {
        Some(x) => x as i128,
        None => 0,
    };
    let moving: i128 = match move_time {
        Some(x) => x as i128,
        None => 0,
    };
    let total = ((down_time as i128) + stand_up + moving) as i64;
    let mut i: usize = events.len();
    while i > 0
        invariant
            i <= s.len(),
            events@ == s,
            forall|k: int| i <= k < s.len() ==> #[trigger] end_of(s[k]) > timestamp,
            forall|k: int| i <= k < s.len() ==> !is_fall(#[trigger] s[k]),
        ensures
            i <= s.len(),
            events@ == s,
            forall|k: int| i <= k < s.len() ==> #[trigger] end_of(s[k]) > timestamp,
            forall|k: int| i <= k < s.len() ==> !is_fall(#[trigger] s[k]),
            i == 0 || end_of(s[i - 1]) <= timestamp || is_fall(s[i - 1]),
        decreases i,
    {
        let j = i - 1;
        if !ends_after(&events[j], timestamp) || events[j].event_type == IncapacitationEventType::FallDown {
            break;
        }
        i = j;
    }
    if i > 0 && ends_after(&events[i - 1], timestamp) {
        let j = i - 1;
        let start = events[j].timestamp;
        events[j].duration = timestamp - start;
        assert(superseded(s, timestamp as int, j as int));
    }
    proof {
        assert forall|k: int| 0 <= k < s.len() && superseded(s, timestamp as int, k) implies k == i - 1 by {
            if k < i - 1 {
                assert(!is_fall(s[i - 1]) || end_of(s[i - 1]) <= timestamp);
            }
        }
    }
    events.push(
        IncapacitatedEvent {
            event_type: IncapacitationEventType::FallDown,
            timestamp,
            duration: total,
        },
    );
    assert(events@ =~= after_fall(s, timestamp as int, total));
}

/// Records a recovery ("getting up") at `timestamp`: every knockdown of the
/// trailing run of windows that extend past `timestamp` now ends there.
/// With no such knockdown the timeline is unchanged.
pub fn record_recovery(events: &mut Vec<IncapacitatedEvent>, timestamp: i64)
    requires
        timeline_wf(old(events)@),
        timestamp >= 0,
    ensures
        final(events)@ == after_recovery(old(events)@, timestamp as int),
        timeline_wf(final(events)@),
{
    let ghost s = events@;
    let mut i: usize = events.len();
    while i > 0
        invariant
            i <= s.len(),
            events@.len() == s.len(),
            timeline_wf(s),
            timestamp >= 0,
            forall|k: int| i <= k < s.len() ==> #[trigger] end_of(s[k]) > timestamp,
            forall|k: int| 0 <= k < i ==> #[trigger] events@[k] == s[k],
            forall|k: int|
                i <= k < s.len() ==> #[trigger] events@[k] == (if is_fall(s[k]) {
                    truncated(s[k], timestamp as int)
                } else {
                    s[k]
                }),
        ensures
            i <= s.len(),
            events@.len() == s.len(),
            forall|k: int| i <= k < s.len() ==> #[trigger] end_of(s[k]) > timestamp,
            forall|k: int| 0 <= k < i ==> #[trigger] events@[k] == s[k],
            forall|k: int|
                i <= k < s.len() ==> #[trigger] events@[k] == (if is_fall(s[k]) {
                    truncated(s[k], timestamp as int)
                } else {
                    s[k]
                }),
            i == 0 || end_of(s[i - 1]) <= timestamp,
        decreases i,
    {
        let j = i - 1;
        if !ends_after(&events[j], timestamp) {
            break;
        }
        if events[j].event_type == IncapacitationEventType::FallDown {
            let start = events[j].timestamp;
            events[j].duration = timestamp - start;
        }
        i = j;
    }
    proof {
        assert forall|k: int| 0 <= k < s.len() implies (in_run(s, timestamp as int, k) <==> k >= i) by {
            if k < i {
                assert(end_of(s[i - 1]) <= timestamp);
            }
        }
    }
    assert(events@ =~= after_recovery(s, timestamp as int));
}

/// Caps the timeline at the entity's death at `death_time`: every window of
/// the trailing run of windows that extend past `death_time` now ends there.
pub fn cap_to_death(events: &mut Vec<IncapacitatedEvent>, death_time: i64)
    requires
        timeline_wf(old(events)@),
        death_time >= 0,
    ensures
        final(events)@ == after_death(old(events)@, death_time as int),
        timeline_wf(final(events)@),
{
    let ghost s = events@;
    let mut i: usize = events.len();
    while i > 0
        invariant
            i <= s.len(),
            events@.len() == s.len(),
            timeline_wf(s),
            death_time >= 0,
            forall|k: int| i <= k < s.len() ==> #[trigger] end_of(s[k]) > death_time,
            forall|k: int| 0 <= k < i ==> #[trigger] events@[k] == s[k],
            forall|k: int| i <= k < s.len() ==> #[trigger] events@[k] == truncated(s[k], death_time as int),
        ensures
            i <= s.len(),
            events@.len() == s.len(),
            forall|k: int| i <= k < s.len() ==> #[trigger] end_of(s[k]) > death_time,
            forall|k: int| 0 <= k < i ==> #[trigger] events@[k] == s[k],
            forall|k: int| i <= k < s.len() ==> #[trigger] events@[k] == truncated(s[k], death_time as int),
            i == 0 || end_of(s[i - 1]) <= death_time,
        decreases i,
    {
        let j = i - 1;
        if !ends_after(&events[j], death_time) {
            break;
        }
        let start = events[j].timestamp;
        events[j].duration = death_time - start;
        i = j;
    }
    proof {
        assert forall|k: int| 0 <= k < s.len() implies (in_run(s, death_time as int, k) <==> k >= i) by {
            if k < i {
                assert(end_of(s[i - 1]) <= death_time);
            }
        }
    }
    assert(events@ =~= after_death(s, death_time as int));
}


/// Every timeline entry is a knockdown.
pub open spec fn all_falls(s: Seq<IncapacitatedEvent>) -> bool {
    forall|j: int| 0 <= j < s.len() ==> is_fall(#[trigger] s[j])
}

/// Each knockdown ends no later than any knockdown recorded after it starts.
pub open spec fn falls_disjoint(s: Seq<IncapacitatedEvent>) -> bool {
    forall|i: int, j: int|
        0 <= i < j < s.len() && is_fall(#[trigger] s[i]) && is_fall(#[trigger] s[j]) ==> end_of(s[i])
            <= s[j].timestamp
}

/// Window `e` is open at instant `x`.
pub open spec fn open_at(e: IncapacitatedEvent, x: int) -> bool {
    e.timestamp <= x < end_of(e)
}

/// At no instant are two distinct knockdown windows open.
pub open spec fn at_most_one_fall_open(s: Seq<IncapacitatedEvent>) -> bool {
    forall|i: int, j: int, x: int|
        0 <= i < s.len() && 0 <= j < s.len() && i != j && is_fall(s[i]) && is_fall(s[j]) && #[trigger] open_at(
            s[i],
            x,
        ) ==> !#[trigger] open_at(s[j], x)
}

proof fn lemma_truncated_end(e: IncapacitatedEvent, t: int)
    requires
        e.timestamp >= 0,
        0 <= t <= i64::MAX,
    ensures
        end_of(truncated(e, t)) == t,
        truncated(e, t).timestamp == e.timestamp,
        truncated(e, t).event_type == e.event_type,
{
}

/// Disjoint knockdowns have at most one window open at any instant.
pub proof fn lemma_disjoint_falls_one_open(s: Seq<IncapacitatedEvent>)
    requires
        falls_disjoint(s),
    ensures
        at_most_one_fall_open(s),
{
    assert forall|i: int, j: int, x: int|
        0 <= i < s.len() && 0 <= j < s.len() && i != j && is_fall(s[i]) && is_fall(s[j]) && #[trigger] open_at(
            s[i],
            x,
        ) implies !#[trigger] open_at(s[j], x) by {
        if i < j {
            assert(end_of(s[i]) <= s[j].timestamp);
        } else {
            assert(end_of(s[j]) <= s[i].timestamp);
        }
    }
}

/// Knockdowns recorded one after another, each later than every window
/// already on the timeline, never leave two knockdown windows open at the
/// same instant: the timeline stays made of pairwise disjoint knockdowns.
pub proof fn lemma_falls_stay_disjoint(s: Seq<IncapacitatedEvent>, t: int, total: i64)
    requires
        timeline_wf(s),
        0 <= t <= i64::MAX,
        all_falls(s),
        falls_disjoint(s),
        forall|j: int| 0 <= j < s.len() ==> #[trigger] s[j].timestamp < t,
    ensures
        all_falls(after_fall(s, t, total)),
        falls_disjoint(after_fall(s, t, total)),
        at_most_one_fall_open(after_fall(s, t, total)),
{
    let r = after_fall(s, t, total);
    assert forall|j: int| 0 <= j < r.len() implies is_fall(#[trigger] r[j]) by {
        if j < s.len() {
            lemma_truncated_end(s[j], t);
        }
    }
    assert forall|i: int| 0 <= i < s.len() implies end_of(#[trigger] r[i]) <= t && end_of(r[i]) <= end_of(s[i])
        && r[i].timestamp == s[i].timestamp by {
        lemma_truncated_end(s[i], t);
        if end_of(s[i]) > t {
            if i < s.len() - 1 {
                let k = s.len() - 1;
                assert(is_fall(s[k]));
                assert(end_of(s[i]) <= s[k].timestamp);
            }
            assert(i == s.len() - 1);
            assert(superseded(s, t, i));
        }
    }
    assert forall|i: int, j: int|
        0 <= i < j < r.len() && is_fall(#[trigger] r[i]) && is_fall(#[trigger] r[j]) implies end_of(r[i])
        <= r[j].timestamp by {
        if j < s.len() {
            assert(is_fall(s[i]) && is_fall(s[j]));
            assert(end_of(s[i]) <= s[j].timestamp);
        }
    }
    lemma_disjoint_falls_one_open(r);
}

/// The timeline built from nothing by knockdowns recorded in order, each
/// call given as `(timestamp, total duration)`.
pub open spec fn replay_falls(calls: Seq<(i64, i64)>) -> Seq<IncapacitatedEvent>
    decreases calls.len(),
{
    if calls.len() == 0 {
        Seq::empty()
    } else {
        after_fall(replay_falls(calls.drop_last()), calls.last().0 as int, calls.last().1)
    }
}

/// Any sequence of knockdowns recorded with strictly increasing
/// (non-negative) timestamps leaves at most one knockdown window open at any
/// instant.
pub proof fn lemma_replayed_falls_one_open(calls: Seq<(i64, i64)>)
    requires
        forall|i: int| 0 <= i < calls.len() ==> #[trigger] calls[i].0 >= 0,
        forall|i: int, j: int| 0 <= i < j < calls.len() ==> #[trigger] calls[i].0 < #[trigger] calls[j].0,
    ensures
        at_most_one_fall_open(replay_falls(calls)),
        falls_disjoint(replay_falls(calls)),
        all_falls(replay_falls(calls)),
        timeline_wf(replay_falls(calls)),
        replay_falls(calls).len() == calls.len(),
        forall|k: int| 0 <= k < calls.len() ==> #[trigger] replay_falls(calls)[k].timestamp == calls[k].0,
    decreases calls.len(),
{
    if calls.len() == 0 {
        lemma_disjoint_falls_one_open(replay_falls(calls));
    } else {
        let prev_calls = calls.drop_last();
        lemma_replayed_falls_one_open(prev_calls);
        let prev = replay_falls(prev_calls);
        let t = calls.last().0 as int;
        assert forall|j: int| 0 <= j < prev.len() implies #[trigger] prev[j].timestamp < t by {
            assert(prev[j].timestamp == prev_calls[j].0);
            assert(calls[j].0 < calls[calls.len() - 1].0);
        }
        lemma_falls_stay_disjoint(prev, t, calls.last().1);
        let r = replay_falls(calls);
        assert forall|k: int| 0 <= k < calls.len() implies #[trigger] r[k].timestamp == calls[k].0 by {
            if k < prev.len() {
                assert(prev[k].timestamp == prev_calls[k].0);
            }
        }
    }
}

/// Capping at death twice at the same instant leaves the timeline as
/// capping once does.
pub proof fn lemma_cap_to_death_idempotent(s: Seq<IncapacitatedEvent>, t: int)
    requires
        timeline_wf(s),
        0 <= t <= i64::MAX,
    ensures
        after_death(after_death(s, t), t) == after_death(s, t),
{
    let r = after_death(s, t);
    if s.len() > 0 {
        let last = s.len() - 1;
        lemma_truncated_end(s[last], t);
        assert(end_of(r[last]) <= t);
    }
    assert forall|k: int| 0 <= k < r.len() implies !in_run(r, t, k) by {
        let last = s.len() - 1;
        assert(end_of(r[last]) <= t);
    }
    assert(after_death(r, t) =~= r);
}

} // verus!
