//! The laws of the library, stated over the spec-level model and proved
//! once for all inputs: the direction bias, the distance axioms, and the
//! report-level guarantees of the gesture interpreter (recognition,
//! debounce, button and timeout discards, and the high-water-mark restart).

use vstd::prelude::*;
use crate::DEBOUNCE_TIME_US;
use crate::EVENT_TIMEOUT_US;
use crate::MIN_SWIPE_DISTANCE;
use crate::events::ABS_X;
use crate::events::ABS_Y;
use crate::events::BTN_TOOL_DOUBLETAP;
use crate::events::BTN_TOOL_FINGER;
use crate::events::BTN_TOOL_QUADTAP;
use crate::events::BTN_TOOL_TRIPLETAP;
use crate::events::EV_ABS;
use crate::events::EV_KEY;
use crate::events::EvKind;
use crate::events::Fingers;
use crate::events::Gesture;
use crate::events::SynEvent;
use crate::events::opt_finger_count;
use crate::events::spec_event_kind;
use crate::geometry::Direction;
use crate::geometry::Position;
use crate::geometry::abs_i;
use crate::geometry::dist2;
use crate::geometry::is_isqrt;
use crate::geometry::spec_direction;
use crate::touchpad::ScanState;
use crate::touchpad::TouchModel;
use crate::touchpad::empty_slot;
use crate::touchpad::find_slot_pos_from;
use crate::touchpad::scan_events;
use crate::touchpad::scan_init;
use crate::touchpad::scan_step;
use crate::touchpad::slot_pos;
use crate::touchpad::spec_fallback;
use crate::touchpad::spec_process;
use crate::touchpad::spec_reset;
use crate::touchpad::spec_mark_high_water;
use crate::touchpad::spec_overall;
use crate::touchpad::spec_update;

verus! {

// ---------------------------------------------------------------------------
// Direction and distance.
// ---------------------------------------------------------------------------

/// The direction classifier applies its horizontal bias exactly: whenever
/// `|dx|` exceeds `1.05 * |dy|` (as integers, `20 * |dx| > 21 * |dy|`), the
/// reading is `Right` for positive `dx` and `Left` otherwise; in every other
/// case it is `Down` for positive `dy` and `Up` otherwise.
pub proof fn lemma_direction_bias(a: Position, b: Position)
    ensures
        20 * abs_i(b.x - a.x) > 21 * abs_i(b.y - a.y) ==> spec_direction(a, b) == (if b.x - a.x
            > 0 {
            Direction::Right
        } else {
            Direction::Left
        }),
        20 * abs_i(b.x - a.x) <= 21 * abs_i(b.y - a.y) ==> spec_direction(a, b) == (if b.y - a.y
            > 0 {
            Direction::Down
        } else {
            Direction::Up
        }),
{
}

/// The distance from a point to itself is zero.
pub proof fn lemma_distance_self(a: Position)
    ensures
        dist2(a, a) == 0,
{
}

/// The squared distance is symmetric, and with it the rounded distance.
pub proof fn lemma_distance_symmetric(a: Position, b: Position)
    ensures
        dist2(a, b) == dist2(b, a),
{
    assert((b.x - a.x) * (b.x - a.x) == (a.x - b.x) * (a.x - b.x)) by (nonlinear_arith);
    assert((b.y - a.y) * (b.y - a.y) == (a.y - b.y) * (a.y - b.y)) by (nonlinear_arith);
}

/// The rounded square root is unique, so equal squared distances give equal
/// rounded distances.
pub proof fn lemma_isqrt_unique(n: int, r1: int, r2: int)
    requires
        is_isqrt(n, r1),
        is_isqrt(n, r2),
    ensures
        r1 == r2,
{
    if r1 < r2 {
        assert((r1 + 1) * (r1 + 1) <= r2 * r2) by (nonlinear_arith)
            requires
                0 <= r1 + 1 <= r2,
        ;
    }
    if r2 < r1 {
        assert((r2 + 1) * (r2 + 1) <= r1 * r1) by (nonlinear_arith)
            requires
                0 <= r2 + 1 <= r1,
        ;
    }
}

/// The rounded square root of zero is zero; with `lemma_distance_self`,
/// the rounded distance from any point to itself is zero.
pub proof fn lemma_isqrt_zero(r: int)
    requires
        is_isqrt(0, r),
    ensures
        r == 0,
{
    if r > 0 {
        assert(1 <= r * r) by (nonlinear_arith)
            requires
                1 <= r,
        ;
    }
}

// ---------------------------------------------------------------------------
// Building blocks for the report-level laws.
// ---------------------------------------------------------------------------

/// An absolute-axis event.
pub open spec fn ev_abs(time_us: i64, code: u16, value: i32) -> SynEvent {
    SynEvent { time_us, ev_type: EV_ABS, code, value }
}

/// A key event.
pub open spec fn ev_key(time_us: i64, code: u16, value: i32) -> SynEvent {
    SynEvent { time_us, ev_type: EV_KEY, code, value }
}

/// The explicit key code announcing the finger count `k`.
pub open spec fn tool_code(k: Fingers) -> u16 {
    match k {
        Fingers::One => BTN_TOOL_FINGER,
        Fingers::Two => BTN_TOOL_DOUBLETAP,
        Fingers::Three => BTN_TOOL_TRIPLETAP,
        Fingers::Four => BTN_TOOL_QUADTAP,
    }
}

/// All per-gesture state is discarded: no positions, no finger counts, no
/// gesture timestamps, no tracked slots.
pub open spec fn cleared(m: TouchModel) -> bool {
    &&& m.start_xy is None
    &&& m.end_xy is None
    &&& m.max_fingers is None
    &&& m.last_finger is None
    &&& m.gesture_start is None
    &&& m.gesture_end is None
    &&& forall|i: int| 0 <= i < m.slots.len() ==> m.slots[i] is None
}

/// A reset state is a cleared state.
pub proof fn lemma_reset_cleared(m: TouchModel)
    ensures
        cleared(spec_reset(m)),
{
}

/// Appending one event to a report scans it last.
pub proof fn lemma_scan_push(s: ScanState, events: Seq<SynEvent>, e: SynEvent)
    ensures
        scan_events(s, events.push(e)) == scan_step(scan_events(s, events), e),
{
    assert(events.push(e).drop_last() =~= events);
    assert(events.push(e).last() == e);
}

/// The scan never touches the debounce anchor.
pub proof fn lemma_scan_preserves_anchor(s: ScanState, events: Seq<SynEvent>)
    ensures
        scan_events(s, events).tp.last_gesture_time == s.tp.last_gesture_time,
    decreases events.len(),
{
    if events.len() > 0 {
        lemma_scan_preserves_anchor(s, events.drop_last());
    }
}

/// A scan that did not stop has processed every event, so the device clock
/// reads the last event's timestamp.
pub proof fn lemma_scan_last_ts(s: ScanState, events: Seq<SynEvent>)
    requires
        !scan_events(s, events).stopped,
        events.len() > 0,
    ensures
        scan_events(s, events).tp.last_ts == events.last().time_us,
{
    let prev = scan_events(s, events.drop_last());
    assert(scan_events(s, events) == scan_step(prev, events.last()));
}

/// Whether some event of the report is a physical button event.
pub open spec fn has_button(events: Seq<SynEvent>) -> bool {
    exists|i: int|
        0 <= i < events.len() && spec_event_kind(
            #[trigger] events[i].ev_type,
            events[i].code,
        ) == EvKind::Button
}

/// A scan of a report holding a physical button event always ends stopped.
pub proof fn lemma_scan_button_stops(s: ScanState, events: Seq<SynEvent>)
    requires
        has_button(events),
    ensures
        scan_events(s, events).stopped,
    decreases events.len(),
{
    let i = choose|i: int|
        0 <= i < events.len() && spec_event_kind(
            #[trigger] events[i].ev_type,
            events[i].code,
        ) == EvKind::Button;
    let prefix = events.drop_last();
    if i < events.len() - 1 {
        assert(prefix[i] == events[i]);
        assert(has_button(prefix));
        lemma_scan_button_stops(s, prefix);
        assert(scan_events(s, events) == scan_step(scan_events(s, prefix), events.last()));
    } else {
        assert(events.last() == events[i]);
        assert(scan_events(s, events) == scan_step(scan_events(s, prefix), events.last()));
    }
}

/// The gap the device clock sees when event `i` of the report is scanned:
/// against the previous event, or against the clock the report began with.
pub open spec fn gap_at(last_ts: i64, events: Seq<SynEvent>, i: int) -> int {
    events[i].time_us - (if i == 0 {
        last_ts as int
    } else {
        events[i - 1].time_us as int
    })
}

/// Whether some event of the report arrives `EVENT_TIMEOUT_US` or more
/// after its predecessor.
pub open spec fn has_timeout_gap(last_ts: i64, events: Seq<SynEvent>) -> bool {
    exists|i: int| 0 <= i < events.len() && #[trigger] gap_at(last_ts, events, i) >= EVENT_TIMEOUT_US
}

/// A scan of a report holding a sustained timestamp gap always ends stopped.
pub proof fn lemma_scan_timeout_stops(s: ScanState, events: Seq<SynEvent>)
    requires
        has_timeout_gap(s.tp.last_ts, events),
    ensures
        scan_events(s, events).stopped,
    decreases events.len(),
{
    let i = choose|i: int|
        0 <= i < events.len() && #[trigger] gap_at(s.tp.last_ts, events, i) >= EVENT_TIMEOUT_US;
    let prefix = events.drop_last();
    let prev = scan_events(s, prefix);
    assert(scan_events(s, events) == scan_step(prev, events.last()));
    if i < events.len() - 1 {
        assert(prefix[i] == events[i]);
        if i > 0 {
            assert(prefix[i - 1] == events[i - 1]);
        }
        assert(gap_at(s.tp.last_ts, prefix, i) == gap_at(s.tp.last_ts, events, i));
        assert(has_timeout_gap(s.tp.last_ts, prefix));
        lemma_scan_timeout_stops(s, prefix);
    } else {
        if prev.stopped {
        } else {
            if i == 0 {
                assert(prev == s);
            } else {
                lemma_scan_last_ts(s, prefix);
                assert(prefix.last() == events[i - 1]);
            }
            assert(events.last().time_us - prev.tp.last_ts >= EVENT_TIMEOUT_US);
        }
    }
}

/// A slot table in which no slot has a position yields no stand-in
/// position.
pub proof fn lemma_no_slot_pos(slots: Seq<Option<crate::touchpad::SlotState>>, j: int)
    requires
        0 <= j,
        forall|i: int|
            0 <= i < slots.len() ==> match #[trigger] slots[i] {
                Some(s) => slot_pos(s) is None,
                None => true,
            },
    ensures
        find_slot_pos_from(slots, j) is None,
    decreases slots.len() - j,
{
    if j < slots.len() {
        lemma_no_slot_pos(slots, j + 1);
    }
}

// ---------------------------------------------------------------------------
// Report-level laws of the interpreter.
// ---------------------------------------------------------------------------

/// A press of finger count `k` with one position, followed by its release in
/// the next report with no movement in between, yields exactly
/// `Tap { fingers: k }` once the debounce interval has elapsed since the
/// last emitted gesture — and the interpreter comes back cleared.
#[verifier::rlimit(100)]
pub proof fn lemma_tap_recognized(m: TouchModel, k: Fingers, x: i32, y: i32, t0: i64, t1: i64)
    requires
        m.wf(),
        cleared(m),
        t0 - m.last_ts < EVENT_TIMEOUT_US,
        0 <= t1 - t0 < EVENT_TIMEOUT_US,
        t1 - m.last_gesture_time > DEBOUNCE_TIME_US,
    ensures
        ({
            let press = seq![
                ev_key(t0, tool_code(k), 1),
                ev_abs(t0, ABS_X, x),
                ev_abs(t0, ABS_Y, y),
            ];
            let release = seq![ev_key(t1, tool_code(k), 0)];
            let r1 = spec_update(m, press);
            let r2 = spec_update(r1.0, release);
            &&& r1.1 is None
            &&& r2.1 == Some(Gesture::Tap { fingers: k })
            &&& cleared(r2.0)
        }),
{
    let e1 = ev_key(t0, tool_code(k), 1);
    let e2 = ev_abs(t0, ABS_X, x);
    let e3 = ev_abs(t0, ABS_Y, y);
    let press = seq![e1, e2, e3];
    assert(spec_event_kind(e1.ev_type, e1.code) == EvKind::FingerTool(k));

    let s0 = scan_init(m);
    let p1 = Seq::<SynEvent>::empty().push(e1);
    let p2 = p1.push(e2);
    let p3 = p2.push(e3);
    assert(scan_events(s0, Seq::<SynEvent>::empty()) == s0);
    lemma_scan_push(s0, Seq::<SynEvent>::empty(), e1);
    lemma_scan_push(s0, p1, e2);
    lemma_scan_push(s0, p2, e3);
    assert(press =~= p3);
    let sa = scan_step(s0, e1);
    let sb = scan_step(sa, e2);
    let sc = scan_step(sb, e3);
    assert(scan_events(s0, press) == sc);

    assert(!sc.stopped);
    assert(sc.tp.last_finger == Some(k));
    assert(sc.tp.max_fingers is None);
    assert(sc.tp.with_btn_tool);
    assert(sc.overall_x == Some(x));
    assert(sc.overall_y == Some(y));

    let r1 = spec_update(m, press);
    let m1 = spec_fallback(sc.tp, press);
    assert(m1 == sc.tp);
    let m2 = spec_mark_high_water(m1);
    assert(m2.max_fingers == Some(k));
    assert(m2.start_xy is None);
    let m3 = r1.0;
    assert(r1.1 is None);
    assert(m3.start_xy == Some(Position { x, y }));
    assert(m3.end_xy is None);
    assert(m3.max_fingers == Some(k));
    assert(m3.last_finger == Some(k));
    assert(m3.last_ts == t0);
    assert(m3.last_gesture_time == m.last_gesture_time);
    assert(m3.last_slot == m.last_slot);
    assert(m3.with_btn_tool);

    // All slots still carry no position: the one slot record the scan
    // created on entry is empty.
    let cur0: usize = match m.last_slot {
        Some(i) => i,
        None => 0,
    };
    assert(m3.slots == m.slots.update(cur0 as int, Some(empty_slot())));
    assert forall|i: int| 0 <= i < m3.slots.len() implies match #[trigger] m3.slots[i] {
        Some(s) => slot_pos(s) is None,
        None => true,
    } by {
        if i != cur0 as int {
            assert(m3.slots[i] == m.slots[i]);
        }
    }

    // The release report.
    let e4 = ev_key(t1, tool_code(k), 0);
    let release = seq![e4];
    let s20 = scan_init(m3);
    assert(s20.tp.slots == m3.slots);
    assert(scan_events(s20, Seq::<SynEvent>::empty()) == s20);
    lemma_scan_push(s20, Seq::<SynEvent>::empty(), e4);
    assert(release =~= Seq::<SynEvent>::empty().push(e4));
    let s2 = scan_step(s20, e4);
    assert(scan_events(s20, release) == s2);
    assert(!s2.stopped);
    assert(s2.tp.last_finger is None);
    assert(s2.tp.max_fingers == Some(k));
    assert(s2.tp.last_ts == t1);

    let m21 = spec_fallback(s2.tp, release);
    assert(m21 == s2.tp);
    let m22 = spec_mark_high_water(m21);
    assert(m22 == m21);
    lemma_no_slot_pos(m22.slots, 0);
    assert(spec_overall(m22, s2.overall_x, s2.overall_y) == (
        Option::<i32>::None,
        Option::<i32>::None,
    ));
    let (m24, g) = spec_process(m22);
    assert(m22.last_ts - m22.last_gesture_time > DEBOUNCE_TIME_US);
    assert(g == Some(Gesture::Tap { fingers: k }));
    let r2 = spec_update(m3, release);
    assert(r2.1 == Some(Gesture::Tap { fingers: k }));
    lemma_reset_cleared(m24);
}

/// A press of finger count `k`, then the overall position moving right by
/// more than the tap-distance threshold, then the release, yields exactly
/// `Swipe { fingers: k, direction: Right }` — and the interpreter comes
/// back cleared.
#[verifier::rlimit(100)]
pub proof fn lemma_swipe_right_recognized(
    m: TouchModel,
    k: Fingers,
    x0: i32,
    y0: i32,
    x1: i32,
    t0: i64,
    t1: i64,
    t2: i64,
)
    requires
        m.wf(),
        cleared(m),
        t0 - m.last_ts < EVENT_TIMEOUT_US,
        0 <= t1 - t0 < EVENT_TIMEOUT_US,
        0 <= t2 - t1 < EVENT_TIMEOUT_US,
        t2 - m.last_gesture_time > DEBOUNCE_TIME_US,
        x1 - x0 > MIN_SWIPE_DISTANCE,
    ensures
        ({
            let press = seq![
                ev_key(t0, tool_code(k), 1),
                ev_abs(t0, ABS_X, x0),
                ev_abs(t0, ABS_Y, y0),
            ];
            let move_right = seq![ev_abs(t1, ABS_X, x1), ev_abs(t1, ABS_Y, y0)];
            let release = seq![ev_key(t2, tool_code(k), 0)];
            let r1 = spec_update(m, press);
            let r2 = spec_update(r1.0, move_right);
            let r3 = spec_update(r2.0, release);
            &&& r1.1 is None
            &&& r2.1 is None
            &&& r3.1 == Some(Gesture::Swipe { fingers: k, direction: Direction::Right })
            &&& cleared(r3.0)
        }),
{
    let e1 = ev_key(t0, tool_code(k), 1);
    let e2 = ev_abs(t0, ABS_X, x0);
    let e3 = ev_abs(t0, ABS_Y, y0);
    let press = seq![e1, e2, e3];
    assert(spec_event_kind(e1.ev_type, e1.code) == EvKind::FingerTool(k));

    let s0 = scan_init(m);
    let p1 = Seq::<SynEvent>::empty().push(e1);
    let p2 = p1.push(e2);
    let p3 = p2.push(e3);
    assert(scan_events(s0, Seq::<SynEvent>::empty()) == s0);
    lemma_scan_push(s0, Seq::<SynEvent>::empty(), e1);
    lemma_scan_push(s0, p1, e2);
    lemma_scan_push(s0, p2, e3);
    assert(press =~= p3);
    let sc = scan_step(scan_step(scan_step(s0, e1), e2), e3);
    assert(scan_events(s0, press) == sc);
    assert(!sc.stopped);

    let r1 = spec_update(m, press);
    let m3 = r1.0;
    assert(r1.1 is None);
    assert(m3.start_xy == Some(Position { x: x0, y: y0 }));
    assert(m3.end_xy is None);
    assert(m3.max_fingers == Some(k));
    assert(m3.last_finger == Some(k));
    assert(m3.last_ts == t0);
    assert(m3.last_gesture_time == m.last_gesture_time);

    // The movement report.
    let e4 = ev_abs(t1, ABS_X, x1);
    let e5 = ev_abs(t1, ABS_Y, y0);
    let move_right = seq![e4, e5];
    let s20 = scan_init(m3);
    let q1 = Seq::<SynEvent>::empty().push(e4);
    let q2 = q1.push(e5);
    assert(scan_events(s20, Seq::<SynEvent>::empty()) == s20);
    lemma_scan_push(s20, Seq::<SynEvent>::empty(), e4);
    lemma_scan_push(s20, q1, e5);
    assert(move_right =~= q2);
    let s2 = scan_step(scan_step(s20, e4), e5);
    assert(scan_events(s20, move_right) == s2);
    assert(!s2.stopped);
    assert(s2.overall_x == Some(x1));
    assert(s2.overall_y == Some(y0));
    assert(s2.tp.last_finger == Some(k));
    assert(s2.tp.max_fingers == Some(k));

    let r2 = spec_update(m3, move_right);
    let m4 = r2.0;
    assert(r2.1 is None);
    assert(m4.start_xy == Some(Position { x: x0, y: y0 }));
    assert(m4.end_xy == Some(Position { x: x1, y: y0 }));
    assert(m4.max_fingers == Some(k));
    assert(m4.last_finger == Some(k));
    assert(m4.last_ts == t1);
    assert(m4.last_gesture_time == m.last_gesture_time);

    // The release report.
    let e6 = ev_key(t2, tool_code(k), 0);
    let release = seq![e6];
    let s30 = scan_init(m4);
    assert(scan_events(s30, Seq::<SynEvent>::empty()) == s30);
    lemma_scan_push(s30, Seq::<SynEvent>::empty(), e6);
    assert(release =~= Seq::<SynEvent>::empty().push(e6));
    let s3 = scan_step(s30, e6);
    assert(scan_events(s30, release) == s3);
    assert(!s3.stopped);
    assert(s3.tp.last_finger is None);
    assert(s3.tp.max_fingers == Some(k));
    assert(s3.tp.last_ts == t2);
    assert(s3.tp.start_xy == Some(Position { x: x0, y: y0 }));
    assert(s3.tp.end_xy == Some(Position { x: x1, y: y0 }));
    assert(s3.overall_x is None && s3.overall_y is None);

    let m31 = spec_fallback(s3.tp, release);
    assert(m31 == s3.tp);
    let m32 = spec_mark_high_water(m31);
    assert(m32 == m31);

    let sp = Position { x: x0, y: y0 };
    let ep = Position { x: x1, y: y0 };
    assert(dist2(sp, ep) >= MIN_SWIPE_DISTANCE * MIN_SWIPE_DISTANCE) by (nonlinear_arith)
        requires
            sp == (Position { x: x0, y: y0 }),
            ep == (Position { x: x1, y: y0 }),
            x1 - x0 > MIN_SWIPE_DISTANCE,
            MIN_SWIPE_DISTANCE > 0,
    ;
    assert(spec_direction(sp, ep) == Direction::Right);

    let (m34, g) = spec_process(m32);
    assert(g == Some(Gesture::Swipe { fingers: k, direction: Direction::Right }));
    let r3 = spec_update(m4, release);
    assert(r3.1 == g);
    lemma_reset_cleared(m34);
}

/// The same interaction finalized within the debounce interval of the
/// previously emitted gesture is fully suppressed: no gesture comes out,
/// yet the per-gesture state still resets, and the debounce anchor is left
/// where the emitted gesture put it.
#[verifier::rlimit(100)]
pub proof fn lemma_tap_suppressed(m: TouchModel, k: Fingers, x: i32, y: i32, t0: i64, t1: i64)
    requires
        m.wf(),
        cleared(m),
        t0 - m.last_ts < EVENT_TIMEOUT_US,
        0 <= t1 - t0 < EVENT_TIMEOUT_US,
        t1 - m.last_gesture_time <= DEBOUNCE_TIME_US,
    ensures
        ({
            let press = seq![
                ev_key(t0, tool_code(k), 1),
                ev_abs(t0, ABS_X, x),
                ev_abs(t0, ABS_Y, y),
            ];
            let release = seq![ev_key(t1, tool_code(k), 0)];
            let r1 = spec_update(m, press);
            let r2 = spec_update(r1.0, release);
            &&& r1.1 is None
            &&& r2.1 is None
            &&& cleared(r2.0)
            &&& r2.0.last_gesture_time == m.last_gesture_time
        }),
{
    let e1 = ev_key(t0, tool_code(k), 1);
    let e2 = ev_abs(t0, ABS_X, x);
    let e3 = ev_abs(t0, ABS_Y, y);
    let press = seq![e1, e2, e3];
    assert(spec_event_kind(e1.ev_type, e1.code) == EvKind::FingerTool(k));

    let s0 = scan_init(m);
    let p1 = Seq::<SynEvent>::empty().push(e1);
    let p2 = p1.push(e2);
    let p3 = p2.push(e3);
    assert(scan_events(s0, Seq::<SynEvent>::empty()) == s0);
    lemma_scan_push(s0, Seq::<SynEvent>::empty(), e1);
    lemma_scan_push(s0, p1, e2);
    lemma_scan_push(s0, p2, e3);
    assert(press =~= p3);
    let sc = scan_step(scan_step(scan_step(s0, e1), e2), e3);
    assert(scan_events(s0, press) == sc);
    assert(!sc.stopped);

    let r1 = spec_update(m, press);
    let m3 = r1.0;
    assert(r1.1 is None);
    assert(m3.start_xy == Some(Position { x, y }));
    assert(m3.max_fingers == Some(k));
    assert(m3.last_finger == Some(k));
    assert(m3.last_ts == t0);
    assert(m3.last_gesture_time == m.last_gesture_time);

    let e4 = ev_key(t1, tool_code(k), 0);
    let release = seq![e4];
    let s20 = scan_init(m3);
    assert(scan_events(s20, Seq::<SynEvent>::empty()) == s20);
    lemma_scan_push(s20, Seq::<SynEvent>::empty(), e4);
    assert(release =~= Seq::<SynEvent>::empty().push(e4));
    let s2 = scan_step(s20, e4);
    assert(scan_events(s20, release) == s2);
    assert(!s2.stopped);
    assert(s2.tp.last_finger is None);
    assert(s2.tp.last_ts == t1);

    let m21 = spec_fallback(s2.tp, release);
    assert(m21 == s2.tp);
    let m22 = spec_mark_high_water(m21);
    assert(m22 == m21);
    assert(m22.last_ts - m22.last_gesture_time <= DEBOUNCE_TIME_US);
    lemma_debounce_suppresses(m22);
    let r2 = spec_update(m3, release);
    assert(r2.1 is None);
    lemma_reset_cleared(m22);
}

/// A finalization attempted within the debounce interval of the previously
/// emitted gesture is fully suppressed: nothing is emitted, and the
/// per-gesture state still resets, with the debounce anchor untouched.
pub proof fn lemma_debounce_suppresses(m: TouchModel)
    requires
        m.start_xy is Some,
        m.max_fingers is Some,
        m.last_ts - m.last_gesture_time <= DEBOUNCE_TIME_US,
    ensures
        spec_process(m).1 is None,
        spec_process(m).0 == spec_reset(m),
        spec_process(m).0.last_gesture_time == m.last_gesture_time,
{
}

/// A finalization attempted once the debounce interval has elapsed emits a
/// gesture and re-anchors the debounce window at the current device clock,
/// so that the next gesture is measured against this one.
pub proof fn lemma_debounce_emits(m: TouchModel)
    requires
        m.start_xy is Some,
        m.max_fingers is Some,
        m.last_ts - m.last_gesture_time > DEBOUNCE_TIME_US,
    ensures
        spec_process(m).1 is Some,
        spec_process(m).0.last_gesture_time == m.last_ts,
{
}

/// A report containing a physical-button key event anywhere discards the
/// gesture entirely, whatever else the report holds: nothing is emitted,
/// all per-gesture state resets, and only the debounce anchor survives.
pub proof fn lemma_button_discards(m: TouchModel, events: Seq<SynEvent>)
    requires
        has_button(events),
    ensures
        spec_update(m, events).1 is None,
        cleared(spec_update(m, events).0),
        spec_update(m, events).0.last_gesture_time == m.last_gesture_time,
{
    let s0 = scan_init(m);
    lemma_scan_button_stops(s0, events);
    lemma_scan_preserves_anchor(s0, events);
    let s = scan_events(s0, events);
    let m1 = spec_fallback(s.tp, events);
    lemma_reset_cleared(m1);
}

/// A sustained gap between two events' timestamps of `EVENT_TIMEOUT_US` or
/// more forces a state reset with no gesture, even mid-gesture; only the
/// debounce anchor survives.
pub proof fn lemma_timeout_discards(m: TouchModel, events: Seq<SynEvent>)
    requires
        has_timeout_gap(m.last_ts, events),
    ensures
        spec_update(m, events).1 is None,
        cleared(spec_update(m, events).0),
        spec_update(m, events).0.last_gesture_time == m.last_gesture_time,
{
    let s0 = scan_init(m);
    assert(s0.tp.last_ts == m.last_ts);
    lemma_scan_timeout_stops(s0, events);
    lemma_scan_preserves_anchor(s0, events);
    let s = scan_events(s0, events);
    let m1 = spec_fallback(s.tp, events);
    lemma_reset_cleared(m1);
}

/// When a report raises the observed finger count above the running
/// maximum, the position recorded under the lower count is discarded: the
/// gesture starts fresh from this report's overall position (or from no
/// position at all, if the report carries none), and nothing is emitted.
pub proof fn lemma_finger_increase_restarts(m: TouchModel, events: Seq<SynEvent>)
    requires
        ({
            let s = scan_events(scan_init(m), events);
            let m1 = spec_fallback(s.tp, events);
            &&& !s.stopped
            &&& opt_finger_count(m1.last_finger) > opt_finger_count(m1.max_fingers)
        }),
    ensures
        ({
            let s = scan_events(scan_init(m), events);
            let m1 = spec_fallback(s.tp, events);
            let (ox, oy) = spec_overall(spec_mark_high_water(m1), s.overall_x, s.overall_y);
            &&& spec_update(m, events).1 is None
            &&& spec_update(m, events).0.max_fingers == m1.last_finger
            &&& spec_update(m, events).0.start_xy == (match (ox, oy) {
                (Some(x), Some(y)) => Some(Position { x, y }),
                _ => None::<Position>,
            })
        }),
{
    let s = scan_events(scan_init(m), events);
    let m1 = spec_fallback(s.tp, events);
    let m2 = spec_mark_high_water(m1);
    assert(m2.start_xy is None);
    assert(m2.max_fingers == m1.last_finger);
    assert(opt_finger_count(m1.last_finger) > 0);
    assert(m1.last_finger is Some);
}

} // verus!
