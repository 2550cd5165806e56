//! The decision logic of one device session and of gesture dispatch.  The
//! caller owns the device descriptor and performs the reads and waits; every
//! outcome is handed here, and the returned step says what to do next.

use vstd::prelude::*;
use crate::config::Action;
use crate::config::GestureMap;
use crate::config::map_lookup;
use crate::events::Gesture;
use crate::events::SynEvent;
use crate::touchpad::EventLoop;
use crate::touchpad::initial_model;
use crate::touchpad::spec_add_event;

verus! {

/// How the next read from the device transport must be performed: normally,
/// or as the single resynchronizing read that recovers from a kernel buffer
/// overrun.
#[derive(Clone, Copy, Debug, PartialEq, Eq, Structural)]
pub enum ReadMode {
    Normal,
    Sync,
}

/// What the device transport reported for one read attempt.
pub enum ReadOutcome {
    /// A typed, timestamped event was delivered.
    Event { time_us: i64, ev_type: u16, code: u16, value: i32 },
    /// The kernel buffer overran; the stream must be resynchronized.
    Desync,
    /// No data is currently available.
    WouldBlock,
    /// An unrecoverable transport error; the session must end.
    Fatal,
}

/// The result of one wait on the readiness multiplexer.
pub enum WaitOutcome {
    /// At least one registered descriptor became ready.
    Ready,
    /// The wait was interrupted; it must be retried, never surfaced.
    Interrupted,
    /// The wait failed for another reason; the session must end.
    Failed,
}

/// What the session loop does next.
#[derive(Clone, Copy, Debug, PartialEq, Eq, Structural)]
pub enum SessionStep {
    /// Read the next event.
    Continue,
    /// Dispatch this recognized gesture, then read the next event.
    Dispatch(Gesture),
    /// Block on the multiplexer until the device is ready again.
    Wait,
    /// End this session; other sessions are unaffected.
    Stop,
}

/// One device session: its gesture interpreter and the mode its next read
/// must use.
pub struct Session {
    pub event_loop: EventLoop,
    pub read_mode: ReadMode,
}

impl Session {
    /// A fresh session: empty report, initial device state, normal reads.
    pub fn new() -> (s: Session)
        ensures
            s.event_loop.state@ == initial_model(),
            s.event_loop.report.events@ == Seq::<SynEvent>::empty(),
            s.event_loop.state@.wf(),
            s.read_mode == ReadMode::Normal,
    {
        Session { event_loop: EventLoop::new(), read_mode: ReadMode::Normal }
    }

    /// Decides on the outcome of one read.  A delivered event is fed to the
    /// interpreter and a recognized gesture is handed back for dispatch; a
    /// desynchronized stream switches exactly the next read to
    /// resynchronization mode; no data means waiting on the multiplexer; an
    /// unrecoverable error stops the session.
    pub fn on_read(&mut self, outcome: &ReadOutcome) -> (step: SessionStep)
        requires
            old(self).event_loop.state@.wf(),
        ensures
            final(self).event_loop.state@.wf(),
            match *outcome {
                ReadOutcome::Event { time_us, ev_type, code, value } => {
                    let eff = spec_add_event(
                        old(self).event_loop.report.events@,
                        old(self).event_loop.state@,
                        time_us,
                        ev_type,
                        code,
                        value,
                    );
                    &&& final(self).read_mode == ReadMode::Normal
                    &&& final(self).event_loop.report.events@ == eff.0
                    &&& final(self).event_loop.state@ == eff.1
                    &&& step == (match eff.2 {
                        Some(g) => SessionStep::Dispatch(g),
                        None => SessionStep::Continue,
                    })
                },
                ReadOutcome::Desync => {
                    &&& final(self).read_mode == ReadMode::Sync
                    &&& final(self).event_loop == old(self).event_loop
                    &&& step == SessionStep::Continue
                },
                ReadOutcome::WouldBlock => {
                    &&& final(self).read_mode == ReadMode::Normal
                    &&& final(self).event_loop == old(self).event_loop
                    &&& step == SessionStep::Wait
                },
                ReadOutcome::Fatal => {
                    &&& final(self).read_mode == old(self).read_mode
                    &&& final(self).event_loop == old(self).event_loop
                    &&& step == SessionStep::Stop
                },
            },
    {
        match outcome {
            ReadOutcome::Event { time_us, ev_type, code, value } => {
                self.read_mode = ReadMode::Normal;
                match self.event_loop.add_event(*time_us, *ev_type, *code, *value) {
                    Some(g) => SessionStep::Dispatch(g),
                    None => SessionStep::Continue,
                }
            },
            ReadOutcome::Desync => {
                self.read_mode = ReadMode::Sync;
                SessionStep::Continue
            },
            ReadOutcome::WouldBlock => {
                self.read_mode = ReadMode::Normal;
                SessionStep::Wait
            },
            ReadOutcome::Fatal => SessionStep::Stop,
        }
    }

    /// Decides on the outcome of one wait: readiness resumes reading, an
    /// interrupted wait is retried rather than surfaced, and any other
    /// failure stops the session.
    pub fn on_wait(&self, outcome: &WaitOutcome) -> (step: SessionStep)
        ensures
            step == (match *outcome {
                WaitOutcome::Ready => SessionStep::Continue,
                WaitOutcome::Interrupted => SessionStep::Wait,
                WaitOutcome::Failed => SessionStep::Stop,
            }),
    {
        match outcome {
            WaitOutcome::Ready => SessionStep::Continue,
            WaitOutcome::Interrupted => SessionStep::Wait,
            WaitOutcome::Failed => SessionStep::Stop,
        }
    }
}

/// Dispatch: looks the recognized gesture up in the device's table and
/// returns the shell command to run, if the matched action has one.  No
/// match, and a matched no-op action, are silently nothing to do.
pub fn swipe_handler<'a>(gestures: &'a GestureMap, gesture: &Gesture) -> (cmd: Option<&'a String>)
    ensures
        match map_lookup(gestures.entries@, *gesture) {
            Some(act) => match act {
                Action::Execute(c) => cmd matches Some(s) && s@ == c@,
                Action::NoOp => cmd is None,
            },
            None => cmd is None,
        },
{
    match gestures.get(gesture) {
        Some(action) => match action {
            Action::Execute(c) => Some(c),
            Action::NoOp => None,
        },
        None => None,
    }
}

} // verus!
