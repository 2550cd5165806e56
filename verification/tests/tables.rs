//! The gesture-to-action tables and the configuration merge.

use syngesture::config::{Action, Configuration, GestureMap};
use syngesture::events::{Fingers, Gesture};
use syngesture::geometry::Direction;
use syngesture::session::swipe_handler;

fn tap(k: Fingers) -> Gesture {
    Gesture::Tap { fingers: k }
}

fn swipe(k: Fingers, d: Direction) -> Gesture {
    Gesture::Swipe { fingers: k, direction: d }
}

#[test]
fn gesture_map_insert_and_get() {
    let mut m = GestureMap::new();
    m.insert(tap(Fingers::Two), Action::Execute(String::from("echo tap2")));
    m.insert(
        swipe(Fingers::Three, Direction::Left),
        Action::Execute(String::from("echo left3")),
    );
    match m.get(&tap(Fingers::Two)) {
        Some(Action::Execute(c)) => assert_eq!(c.as_str(), "echo tap2"),
        _ => panic!("expected the two-finger tap binding"),
    }
    match m.get(&swipe(Fingers::Three, Direction::Left)) {
        Some(Action::Execute(c)) => assert_eq!(c.as_str(), "echo left3"),
        _ => panic!("expected the three-finger swipe binding"),
    }
    assert!(m.get(&tap(Fingers::Four)).is_none());
}

#[test]
fn gesture_map_insert_replaces() {
    let mut m = GestureMap::new();
    m.insert(tap(Fingers::One), Action::Execute(String::from("old")));
    m.insert(tap(Fingers::One), Action::Execute(String::from("new")));
    match m.get(&tap(Fingers::One)) {
        Some(Action::Execute(c)) => assert_eq!(c.as_str(), "new"),
        _ => panic!("expected the replaced binding"),
    }
}

#[test]
fn swipe_handler_returns_command_only_for_execute() {
    let mut m = GestureMap::new();
    m.insert(tap(Fingers::Two), Action::Execute(String::from("xdotool key a")));
    m.insert(tap(Fingers::Three), Action::NoOp);
    assert_eq!(
        swipe_handler(&m, &tap(Fingers::Two)).map(String::as_str),
        Some("xdotool key a")
    );
    assert_eq!(swipe_handler(&m, &tap(Fingers::Three)), None);
    assert_eq!(swipe_handler(&m, &tap(Fingers::Four)), None);
}

#[test]
fn configuration_merge_and_lookup() {
    let mut cfg = Configuration::new();
    assert!(cfg.is_empty());
    let pad = String::from("/dev/input/event7");
    let mouse = String::from("/dev/input/event9");
    cfg.add_binding(&pad, tap(Fingers::Two), Action::Execute(String::from("a")));
    cfg.add_binding(&pad, tap(Fingers::Three), Action::Execute(String::from("b")));
    cfg.add_binding(&mouse, tap(Fingers::Two), Action::Execute(String::from("c")));
    // A later file re-binds the same gesture on the same device: it wins.
    cfg.add_binding(&pad, tap(Fingers::Two), Action::Execute(String::from("a2")));
    assert!(!cfg.is_empty());

    let pad_map = cfg.device_map(&pad).expect("the touchpad is configured");
    match pad_map.get(&tap(Fingers::Two)) {
        Some(Action::Execute(c)) => assert_eq!(c.as_str(), "a2"),
        _ => panic!("expected the re-bound two-finger tap"),
    }
    match pad_map.get(&tap(Fingers::Three)) {
        Some(Action::Execute(c)) => assert_eq!(c.as_str(), "b"),
        _ => panic!("expected the three-finger tap binding"),
    }
    let mouse_map = cfg.device_map(&mouse).expect("the mouse is configured");
    match mouse_map.get(&tap(Fingers::Two)) {
        Some(Action::Execute(c)) => assert_eq!(c.as_str(), "c"),
        _ => panic!("expected the mouse binding"),
    }
    assert!(cfg.device_map(&String::from("/dev/input/event0")).is_none());
}
