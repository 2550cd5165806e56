//! The multiplexer bookkeeping, the session decision logic, and the error
//! logger.

use syngesture::epoll::{Epoll, ReadyEvent};
use syngesture::errorlog::{init, Level};
use syngesture::events::{Fingers, Gesture, BTN_TOOL_FINGER, EV_ABS, EV_KEY, EV_SYN, SYN_REPORT};
use syngesture::session::{ReadMode, ReadOutcome, Session, SessionStep, WaitOutcome};

#[test]
fn epoll_tokens_count_up() {
    let mut ep = Epoll::new();
    let t1 = ep.register_read(7, false);
    let t2 = ep.register_read(9, true);
    assert_eq!(t1.fd, 7);
    assert_eq!(t1.key, 0);
    assert_eq!(t2.fd, 9);
    assert_eq!(t2.key, 1);
    assert_eq!(ep.next_key, 2);
}

#[test]
fn epoll_test_read_finds_first_match() {
    let mut ep = Epoll::new();
    let t0 = ep.register_read(5, false);
    let t1 = ep.register_read(6, false);
    let t2 = ep.register_read(8, false);
    ep.record_wait(vec![
        ReadyEvent { key: 1, readable: true },
        ReadyEvent { key: 0, readable: false },
    ]);
    assert!(ep.test_read(&t1));
    assert!(!ep.test_read(&t0));
    assert!(!ep.test_read(&t2));
}

#[test]
fn epoll_test_read_before_any_wait_is_false() {
    let mut ep = Epoll::new();
    let t = ep.register_read(3, true);
    assert!(!ep.test_read(&t));
}

#[test]
fn session_desync_arms_one_sync_read() {
    let mut s = Session::new();
    assert_eq!(s.read_mode, ReadMode::Normal);
    assert_eq!(s.on_read(&ReadOutcome::Desync), SessionStep::Continue);
    assert_eq!(s.read_mode, ReadMode::Sync);
    // The very next delivered event puts the session back to normal reads.
    let step = s.on_read(&ReadOutcome::Event { time_us: 0, ev_type: EV_ABS, code: 0, value: 5 });
    assert_eq!(step, SessionStep::Continue);
    assert_eq!(s.read_mode, ReadMode::Normal);
}

#[test]
fn session_would_block_waits_and_fatal_stops() {
    let mut s = Session::new();
    assert_eq!(s.on_read(&ReadOutcome::WouldBlock), SessionStep::Wait);
    assert_eq!(s.read_mode, ReadMode::Normal);
    assert_eq!(s.on_read(&ReadOutcome::Fatal), SessionStep::Stop);
}

#[test]
fn session_wait_outcomes() {
    let s = Session::new();
    assert_eq!(s.on_wait(&WaitOutcome::Ready), SessionStep::Continue);
    assert_eq!(s.on_wait(&WaitOutcome::Interrupted), SessionStep::Wait);
    assert_eq!(s.on_wait(&WaitOutcome::Failed), SessionStep::Stop);
}

#[test]
fn session_dispatches_recognized_gesture() {
    let mut s = Session::new();
    let second: i64 = 1_000_000;
    let t0 = 2 * second;
    let t1 = t0 + second / 10;
    let ev = |time_us, ev_type, code, value| ReadOutcome::Event { time_us, ev_type, code, value };
    assert_eq!(s.on_read(&ev(t0, EV_KEY, BTN_TOOL_FINGER, 1)), SessionStep::Continue);
    assert_eq!(s.on_read(&ev(t0, EV_ABS, 0, 50)), SessionStep::Continue);
    assert_eq!(s.on_read(&ev(t0, EV_ABS, 1, 60)), SessionStep::Continue);
    assert_eq!(s.on_read(&ev(t0, EV_SYN, SYN_REPORT, 0)), SessionStep::Continue);
    assert_eq!(s.on_read(&ev(t1, EV_KEY, BTN_TOOL_FINGER, 0)), SessionStep::Continue);
    assert_eq!(
        s.on_read(&ev(t1, EV_SYN, SYN_REPORT, 0)),
        SessionStep::Dispatch(Gesture::Tap { fingers: Fingers::One })
    );
}

#[test]
fn errorlog_passes_errors_only() {
    let lg = init();
    assert!(lg.enabled());
    assert_eq!(
        lg.log(&Level::Error, String::from("device vanished")),
        Some(String::from("device vanished"))
    );
    assert_eq!(lg.log(&Level::Warn, String::from("noise")), None);
    assert_eq!(lg.log(&Level::Info, String::from("noise")), None);
    assert_eq!(lg.log(&Level::Debug, String::from("noise")), None);
    assert_eq!(lg.log(&Level::Trace, String::from("noise")), None);
}
