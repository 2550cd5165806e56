//! Recognition of taps and directional swipes on a multi-touch trackpad.
//!
//! The library interprets a chronologically ordered stream of typed, timestamped
//! hardware events (absolute positions, per-slot tool tracking, key signals) and
//! emits at most one recognized gesture per report boundary.  Around the
//! interpreter it provides the decision logic of a per-device session loop, the
//! bookkeeping half of a readiness multiplexer, the gesture-to-action tables,
//! and a small error-message buffer.  Timestamps are integer microseconds and
//! travel is measured by exact integer arithmetic, so every rule is stated and
//! proved precisely.

use vstd::prelude::*;

pub mod config;
pub mod epoll;
pub mod errorlog;
pub mod events;
pub mod geometry;
pub mod laws;
pub mod session;
pub mod touchpad;

verus! {

/// The maximum travel (in device position units) before a tap is considered a swipe.
pub const MIN_SWIPE_DISTANCE: u64 = 300;

/// The number of tools (fingers) that are initially tracked simultaneously;
/// the slot table grows on demand when a driver reports a higher slot index.
pub const INITIAL_SLOTS: usize = 5;

/// How long (in microseconds) before the event state resets.  A gap of at
/// least this length between two event timestamps discards all in-flight
/// state, guarding against clock discontinuities and resumed devices.
pub const EVENT_TIMEOUT_US: i64 = 10_593_665_152_000_000;

/// A new gesture will not be entertained within this span (in microseconds)
/// after the previously emitted gesture.
pub const DEBOUNCE_TIME_US: i64 = 200_000;

} // verus!
