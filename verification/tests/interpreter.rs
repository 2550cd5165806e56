//! End-to-end scenarios through the gesture interpreter.

use syngesture::events::{
    Fingers, Gesture, ABS_MT_POSITION_X, ABS_MT_POSITION_Y, ABS_MT_SLOT, ABS_MT_TRACKING_ID,
    ABS_X, ABS_Y, BTN_LEFT, BTN_TOOL_DOUBLETAP, BTN_TOOL_FINGER, EV_ABS, EV_KEY, EV_SYN,
    SYN_REPORT,
};
use syngesture::geometry::Direction;
use syngesture::touchpad::EventLoop;

const SECOND: i64 = 1_000_000;

fn feed(el: &mut EventLoop, time_us: i64, ev_type: u16, code: u16, value: i32) -> Option<Gesture> {
    el.add_event(time_us, ev_type, code, value)
}

fn boundary(el: &mut EventLoop, time_us: i64) -> Option<Gesture> {
    el.add_event(time_us, EV_SYN, SYN_REPORT, 0)
}

#[test]
fn tap_press_then_release_two_reports() {
    let mut el = EventLoop::new();
    let t0 = 10 * SECOND;
    let t1 = t0 + SECOND / 10;
    assert_eq!(feed(&mut el, t0, EV_KEY, BTN_TOOL_DOUBLETAP, 1), None);
    assert_eq!(feed(&mut el, t0, EV_ABS, ABS_X, 100), None);
    assert_eq!(feed(&mut el, t0, EV_ABS, ABS_Y, 200), None);
    assert_eq!(boundary(&mut el, t0), None);
    assert_eq!(feed(&mut el, t1, EV_KEY, BTN_TOOL_DOUBLETAP, 0), None);
    let g = boundary(&mut el, t1);
    assert_eq!(g, Some(Gesture::Tap { fingers: Fingers::Two }));
}

#[test]
fn swipe_right_three_reports() {
    let mut el = EventLoop::new();
    let t0 = 5 * SECOND;
    let t1 = t0 + SECOND / 20;
    let t2 = t0 + SECOND / 10;
    assert_eq!(feed(&mut el, t0, EV_KEY, BTN_TOOL_FINGER, 1), None);
    assert_eq!(feed(&mut el, t0, EV_ABS, ABS_X, 0), None);
    assert_eq!(feed(&mut el, t0, EV_ABS, ABS_Y, 0), None);
    assert_eq!(boundary(&mut el, t0), None);
    assert_eq!(feed(&mut el, t1, EV_ABS, ABS_X, 400), None);
    assert_eq!(feed(&mut el, t1, EV_ABS, ABS_Y, 0), None);
    assert_eq!(boundary(&mut el, t1), None);
    assert_eq!(feed(&mut el, t2, EV_KEY, BTN_TOOL_FINGER, 0), None);
    let g = boundary(&mut el, t2);
    assert_eq!(
        g,
        Some(Gesture::Swipe { fingers: Fingers::One, direction: Direction::Right })
    );
}

#[test]
fn two_finger_slot_swipe_scenario() {
    // slot-select(0), position(0,0), finger-press(2, t=0.0), position(500,0),
    // finger-release(2, t=0.3); debounce anchor far in the past.
    let mut el = EventLoop::new();
    let t0 = 0;
    let t1 = SECOND / 10;
    let t2 = 3 * SECOND / 10;
    assert_eq!(feed(&mut el, t0, EV_ABS, ABS_MT_SLOT, 0), None);
    assert_eq!(feed(&mut el, t0, EV_ABS, ABS_MT_POSITION_X, 0), None);
    assert_eq!(feed(&mut el, t0, EV_ABS, ABS_MT_POSITION_Y, 0), None);
    assert_eq!(feed(&mut el, t0, EV_KEY, BTN_TOOL_DOUBLETAP, 1), None);
    assert_eq!(boundary(&mut el, t0), None);
    assert_eq!(feed(&mut el, t1, EV_ABS, ABS_MT_POSITION_X, 500), None);
    assert_eq!(feed(&mut el, t1, EV_ABS, ABS_MT_POSITION_Y, 0), None);
    assert_eq!(boundary(&mut el, t1), None);
    assert_eq!(feed(&mut el, t2, EV_KEY, BTN_TOOL_DOUBLETAP, 0), None);
    let g = boundary(&mut el, t2);
    assert_eq!(
        g,
        Some(Gesture::Swipe { fingers: Fingers::Two, direction: Direction::Right })
    );
}

#[test]
fn second_gesture_within_debounce_is_suppressed() {
    let mut el = EventLoop::new();
    let t0 = 2 * SECOND;
    let t1 = t0 + SECOND / 10;
    // First tap: emitted.
    assert_eq!(feed(&mut el, t0, EV_KEY, BTN_TOOL_FINGER, 1), None);
    assert_eq!(feed(&mut el, t0, EV_ABS, ABS_X, 50), None);
    assert_eq!(feed(&mut el, t0, EV_ABS, ABS_Y, 50), None);
    assert_eq!(boundary(&mut el, t0), None);
    assert_eq!(feed(&mut el, t1, EV_KEY, BTN_TOOL_FINGER, 0), None);
    assert_eq!(
        boundary(&mut el, t1),
        Some(Gesture::Tap { fingers: Fingers::One })
    );
    // Second tap, finalized 0.15 s after the first was emitted: suppressed.
    let t2 = t1 + SECOND / 20;
    let t3 = t1 + 3 * SECOND / 20;
    assert_eq!(feed(&mut el, t2, EV_KEY, BTN_TOOL_FINGER, 1), None);
    assert_eq!(feed(&mut el, t2, EV_ABS, ABS_X, 60), None);
    assert_eq!(feed(&mut el, t2, EV_ABS, ABS_Y, 60), None);
    assert_eq!(boundary(&mut el, t2), None);
    assert_eq!(feed(&mut el, t3, EV_KEY, BTN_TOOL_FINGER, 0), None);
    assert_eq!(boundary(&mut el, t3), None);
    // State reset: a third tap after the debounce interval is emitted again.
    let t4 = t1 + SECOND;
    let t5 = t4 + SECOND / 10;
    assert_eq!(feed(&mut el, t4, EV_KEY, BTN_TOOL_FINGER, 1), None);
    assert_eq!(feed(&mut el, t4, EV_ABS, ABS_X, 70), None);
    assert_eq!(feed(&mut el, t4, EV_ABS, ABS_Y, 70), None);
    assert_eq!(boundary(&mut el, t4), None);
    assert_eq!(feed(&mut el, t5, EV_KEY, BTN_TOOL_FINGER, 0), None);
    assert_eq!(
        boundary(&mut el, t5),
        Some(Gesture::Tap { fingers: Fingers::One })
    );
}

#[test]
fn physical_button_discards_gesture() {
    let mut el = EventLoop::new();
    let t0 = 2 * SECOND;
    let t1 = t0 + SECOND / 10;
    assert_eq!(feed(&mut el, t0, EV_KEY, BTN_TOOL_FINGER, 1), None);
    assert_eq!(feed(&mut el, t0, EV_ABS, ABS_X, 100), None);
    assert_eq!(feed(&mut el, t0, EV_ABS, ABS_Y, 100), None);
    assert_eq!(boundary(&mut el, t0), None);
    // The release report also carries a physical click: everything is
    // discarded, no tap comes out.
    assert_eq!(feed(&mut el, t1, EV_KEY, BTN_LEFT, 1), None);
    assert_eq!(feed(&mut el, t1, EV_KEY, BTN_TOOL_FINGER, 0), None);
    assert_eq!(boundary(&mut el, t1), None);
    // And the in-flight state is gone: a lone release later does nothing.
    let t2 = t1 + SECOND;
    assert_eq!(feed(&mut el, t2, EV_KEY, BTN_TOOL_FINGER, 0), None);
    assert_eq!(boundary(&mut el, t2), None);
}

#[test]
fn timestamp_gap_resets_state() {
    let mut el = EventLoop::new();
    let t0 = 2 * SECOND;
    assert_eq!(feed(&mut el, t0, EV_KEY, BTN_TOOL_FINGER, 1), None);
    assert_eq!(feed(&mut el, t0, EV_ABS, ABS_X, 100), None);
    assert_eq!(feed(&mut el, t0, EV_ABS, ABS_Y, 100), None);
    assert_eq!(boundary(&mut el, t0), None);
    // The next event arrives after a gap far beyond the timeout: the
    // in-flight gesture is discarded, nothing is emitted.
    let t1 = t0 + 11_000_000_000 * SECOND;
    assert_eq!(feed(&mut el, t1, EV_KEY, BTN_TOOL_FINGER, 0), None);
    assert_eq!(boundary(&mut el, t1), None);
    // Still idle afterwards: a release alone yields nothing.
    let t2 = t1 + SECOND / 10;
    assert_eq!(feed(&mut el, t2, EV_KEY, BTN_TOOL_FINGER, 0), None);
    assert_eq!(boundary(&mut el, t2), None);
}

#[test]
fn finger_increase_discards_earlier_position() {
    let mut el = EventLoop::new();
    let t0 = 2 * SECOND;
    let t1 = t0 + SECOND / 20;
    let t2 = t0 + SECOND / 10;
    // One finger comes down at the far left.
    assert_eq!(feed(&mut el, t0, EV_KEY, BTN_TOOL_FINGER, 1), None);
    assert_eq!(feed(&mut el, t0, EV_ABS, ABS_X, 0), None);
    assert_eq!(feed(&mut el, t0, EV_ABS, ABS_Y, 0), None);
    assert_eq!(boundary(&mut el, t0), None);
    // A second finger joins at x = 500: the start recorded under one finger
    // is discarded and the gesture restarts here.
    assert_eq!(feed(&mut el, t1, EV_KEY, BTN_TOOL_FINGER, 0), None);
    assert_eq!(feed(&mut el, t1, EV_KEY, BTN_TOOL_DOUBLETAP, 1), None);
    assert_eq!(feed(&mut el, t1, EV_ABS, ABS_X, 500), None);
    assert_eq!(feed(&mut el, t1, EV_ABS, ABS_Y, 0), None);
    assert_eq!(boundary(&mut el, t1), None);
    // Release without further movement: a two-finger tap, not a swipe from
    // x = 0 to x = 500.
    assert_eq!(feed(&mut el, t2, EV_KEY, BTN_TOOL_DOUBLETAP, 0), None);
    assert_eq!(
        boundary(&mut el, t2),
        Some(Gesture::Tap { fingers: Fingers::Two })
    );
}

#[test]
fn implicit_finger_count_from_slots() {
    // A device that never emits the explicit per-count key codes: the count
    // is inferred from the number of active slots.
    let mut el = EventLoop::new();
    let t0 = 2 * SECOND;
    let t1 = t0 + SECOND / 20;
    let t2 = t0 + 3 * SECOND / 10;
    assert_eq!(feed(&mut el, t0, EV_ABS, ABS_MT_SLOT, 0), None);
    assert_eq!(feed(&mut el, t0, EV_ABS, ABS_MT_POSITION_X, 10), None);
    assert_eq!(feed(&mut el, t0, EV_ABS, ABS_MT_POSITION_Y, 10), None);
    assert_eq!(boundary(&mut el, t0), None);
    assert_eq!(feed(&mut el, t1, EV_ABS, ABS_MT_POSITION_X, 400), None);
    assert_eq!(feed(&mut el, t1, EV_ABS, ABS_MT_POSITION_Y, 10), None);
    assert_eq!(boundary(&mut el, t1), None);
    assert_eq!(feed(&mut el, t2, EV_ABS, ABS_MT_TRACKING_ID, -1), None);
    let g = boundary(&mut el, t2);
    assert_eq!(
        g,
        Some(Gesture::Swipe { fingers: Fingers::One, direction: Direction::Right })
    );
}

#[test]
fn slot_table_grows_on_demand() {
    // A driver reporting a slot index beyond the initial table: the table
    // grows, and the gesture still works through that slot.
    let mut el = EventLoop::new();
    let t0 = 2 * SECOND;
    let t1 = t0 + 3 * SECOND / 10;
    assert_eq!(feed(&mut el, t0, EV_ABS, ABS_MT_SLOT, 9), None);
    assert_eq!(feed(&mut el, t0, EV_ABS, ABS_MT_POSITION_X, 20), None);
    assert_eq!(feed(&mut el, t0, EV_ABS, ABS_MT_POSITION_Y, 30), None);
    assert_eq!(boundary(&mut el, t0), None);
    assert_eq!(feed(&mut el, t1, EV_ABS, ABS_MT_TRACKING_ID, -1), None);
    assert_eq!(
        boundary(&mut el, t1),
        Some(Gesture::Tap { fingers: Fingers::One })
    );
}

#[test]
fn negative_slot_index_is_ignored() {
    let mut el = EventLoop::new();
    let t0 = 2 * SECOND;
    assert_eq!(feed(&mut el, t0, EV_ABS, ABS_MT_SLOT, -3), None);
    assert_eq!(boundary(&mut el, t0), None);
}

#[test]
fn unrecognized_codes_are_ignored() {
    let mut el = EventLoop::new();
    let t0 = 2 * SECOND;
    // An unknown absolute axis, an unknown key, and an unknown event type.
    assert_eq!(feed(&mut el, t0, EV_ABS, 24, 7), None);
    assert_eq!(feed(&mut el, t0, EV_KEY, 30, 1), None);
    assert_eq!(feed(&mut el, t0, 2, 0, 1), None);
    assert_eq!(boundary(&mut el, t0), None);
}

#[test]
fn tap_swipe_threshold_boundary() {
    // Travel of 299 units stays a tap; travel of 300 units becomes a swipe.
    for (dx, expect_swipe) in [(299, false), (300, true)] {
        let mut el = EventLoop::new();
        let t0 = 2 * SECOND;
        let t1 = t0 + SECOND / 20;
        let t2 = t0 + SECOND / 10;
        assert_eq!(feed(&mut el, t0, EV_KEY, BTN_TOOL_FINGER, 1), None);
        assert_eq!(feed(&mut el, t0, EV_ABS, ABS_X, 0), None);
        assert_eq!(feed(&mut el, t0, EV_ABS, ABS_Y, 0), None);
        assert_eq!(boundary(&mut el, t0), None);
        assert_eq!(feed(&mut el, t1, EV_ABS, ABS_X, dx), None);
        assert_eq!(feed(&mut el, t1, EV_ABS, ABS_Y, 0), None);
        assert_eq!(boundary(&mut el, t1), None);
        assert_eq!(feed(&mut el, t2, EV_KEY, BTN_TOOL_FINGER, 0), None);
        let g = boundary(&mut el, t2);
        if expect_swipe {
            assert_eq!(
                g,
                Some(Gesture::Swipe { fingers: Fingers::One, direction: Direction::Right })
            );
        } else {
            assert_eq!(g, Some(Gesture::Tap { fingers: Fingers::One }));
        }
    }
}

#[test]
fn no_position_yields_nothing() {
    // A press and release with no position at all: not an error, just no
    // gesture.
    let mut el = EventLoop::new();
    let t0 = 2 * SECOND;
    let t1 = t0 + SECOND / 10;
    assert_eq!(feed(&mut el, t0, EV_KEY, BTN_TOOL_FINGER, 1), None);
    assert_eq!(boundary(&mut el, t0), None);
    assert_eq!(feed(&mut el, t1, EV_KEY, BTN_TOOL_FINGER, 0), None);
    assert_eq!(boundary(&mut el, t1), None);
}

#[test]
fn empty_report_is_harmless() {
    let mut el = EventLoop::new();
    assert_eq!(boundary(&mut el, 0), None);
    assert_eq!(boundary(&mut el, 1), None);
}
