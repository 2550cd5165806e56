//! Per-slot tool tracking and the event-code classification.

use syngesture::events::{
    event_kind, EvKind, Fingers, ABS_MT_SLOT, ABS_MT_TRACKING_ID, ABS_X, BTN_LEFT, BTN_RIGHT,
    BTN_TOOL_DOUBLETAP, BTN_TOOL_FINGER, BTN_TOOL_QUADTAP, BTN_TOOL_TRIPLETAP, EV_ABS, EV_KEY,
};
use syngesture::geometry::Direction;
use syngesture::touchpad::SlotState;

fn empty() -> SlotState {
    SlotState { complete: false, start_xy: None, end_xy: None }
}

#[test]
fn slot_positions_fix_start_then_end() {
    let mut s = empty();
    assert!(!s.has_pos());
    assert!(!s.is_active());
    assert_eq!(s.distance(), None);
    assert_eq!(s.direction(), None);

    s.push_position(10, 20);
    assert!(s.has_pos());
    assert!(s.is_active());
    assert_eq!(s.distance(), None);

    s.push_position(13, 24);
    let p = s.start_xy.unwrap();
    assert_eq!((p.x, p.y), (10, 20));
    let q = s.end_xy.unwrap();
    assert_eq!((q.x, q.y), (13, 24));
    assert_eq!(s.distance(), Some(5));
    assert_eq!(s.direction(), Some(Direction::Down));

    s.complete = true;
    assert!(!s.is_active());
}

#[test]
fn event_kind_classification() {
    assert_eq!(event_kind(EV_ABS, ABS_X), EvKind::OverallX);
    assert_eq!(event_kind(EV_ABS, ABS_MT_SLOT), EvKind::SlotSelect);
    assert_eq!(event_kind(EV_ABS, ABS_MT_TRACKING_ID), EvKind::TrackingId);
    assert_eq!(event_kind(EV_KEY, BTN_LEFT), EvKind::Button);
    assert_eq!(event_kind(EV_KEY, BTN_RIGHT), EvKind::Button);
    assert_eq!(event_kind(EV_KEY, BTN_TOOL_FINGER), EvKind::FingerTool(Fingers::One));
    assert_eq!(event_kind(EV_KEY, BTN_TOOL_DOUBLETAP), EvKind::FingerTool(Fingers::Two));
    assert_eq!(event_kind(EV_KEY, BTN_TOOL_TRIPLETAP), EvKind::FingerTool(Fingers::Three));
    assert_eq!(event_kind(EV_KEY, BTN_TOOL_QUADTAP), EvKind::FingerTool(Fingers::Four));
    // Out-of-vocabulary codes are ignored, never rejected.
    assert_eq!(event_kind(EV_ABS, 9999), EvKind::Ignored);
    assert_eq!(event_kind(EV_KEY, 9999), EvKind::Ignored);
    assert_eq!(event_kind(17, 0), EvKind::Ignored);
}
