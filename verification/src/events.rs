//! Typed raw events and the exhaustive classification of numeric event codes
//! to the event kinds the gesture interpreter understands.  The numeric
//! type/code assignments are the fixed vocabulary of the kernel input
//! subsystem; codes outside it are classified as `Ignored`, never rejected.

use vstd::prelude::*;
use crate::geometry::Direction;

verus! {

/// Event type: a synchronization marker.
pub const EV_SYN: u16 = 0;

/// Event type: a key or button state change.
pub const EV_KEY: u16 = 1;

/// Event type: an absolute axis value.
pub const EV_ABS: u16 = 3;

/// Synchronization code: the boundary that closes one report.
pub const SYN_REPORT: u16 = 0;

/// Absolute axis: overall x position, regardless of tool.
pub const ABS_X: u16 = 0;

/// Absolute axis: overall y position, regardless of tool.
pub const ABS_Y: u16 = 1;

/// Absolute axis: selects the slot the following tool events refer to.
pub const ABS_MT_SLOT: u16 = 47;

/// Absolute axis: x position of the currently selected slot's tool.
pub const ABS_MT_POSITION_X: u16 = 53;

/// Absolute axis: y position of the currently selected slot's tool.
pub const ABS_MT_POSITION_Y: u16 = 54;

/// Absolute axis: tool identity; the value -1 marks the tool as lifted.
pub const ABS_MT_TRACKING_ID: u16 = 57;

/// Key code: the primary physical button.
pub const BTN_LEFT: u16 = 272;

/// Key code: the secondary physical button.
pub const BTN_RIGHT: u16 = 273;

/// Key code: exactly one finger is on the pad.
pub const BTN_TOOL_FINGER: u16 = 325;

/// Key code: exactly two fingers are on the pad.
pub const BTN_TOOL_DOUBLETAP: u16 = 333;

/// Key code: exactly three fingers are on the pad.
pub const BTN_TOOL_TRIPLETAP: u16 = 334;

/// Key code: exactly four fingers are on the pad.
pub const BTN_TOOL_QUADTAP: u16 = 335;

/// A finger count between one and four.
#[derive(Clone, Copy, Debug, PartialEq, Eq, Structural)]
pub enum Fingers {
    One,
    Two,
    Three,
    Four,
}

impl Fingers {
    /// The numeric value of the finger count.
    pub open spec fn spec_count(self) -> int {
        match self {
            Fingers::One => 1,
            Fingers::Two => 2,
            Fingers::Three => 3,
            Fingers::Four => 4,
        }
    }

    /// Returns the numeric value of the finger count.
    pub fn count(&self) -> (n: u8)
        ensures
            n as int == self.spec_count(),
    {
        match self {
            Fingers::One => 1,
            Fingers::Two => 2,
            Fingers::Three => 3,
            Fingers::Four => 4,
        }
    }
}

/// The numeric finger count of an optional `Fingers`, with absence counting
/// as zero.  This matches the order None < One < Two < Three < Four.
pub open spec fn opt_finger_count(f: Option<Fingers>) -> int {
    match f {
        Some(k) => k.spec_count(),
        None => 0,
    }
}

/// Returns the numeric finger count of an optional `Fingers`.
pub fn opt_fingers_value(f: &Option<Fingers>) -> (n: u8)
    ensures
        n as int == opt_finger_count(*f),
{
    match f {
        Some(k) => k.count(),
        None => 0,
    }
}

/// The finger count standing for `n` simultaneously active tools; counts
/// above four saturate at four.
pub open spec fn fingers_of_count(n: int) -> Fingers {
    if n <= 1 {
        Fingers::One
    } else if n == 2 {
        Fingers::Two
    } else if n == 3 {
        Fingers::Three
    } else {
        Fingers::Four
    }
}

/// Returns the finger count standing for `n` simultaneously active tools.
pub fn fingers_from_count(n: usize) -> (f: Fingers)
    ensures
        f == fingers_of_count(n as int),
{
    if n <= 1 {
        Fingers::One
    } else if n == 2 {
        Fingers::Two
    } else if n == 3 {
        Fingers::Three
    } else {
        Fingers::Four
    }
}

/// Two optional finger counts with the same numeric value are the same.
pub proof fn lemma_opt_finger_count_injective(a: Option<Fingers>, b: Option<Fingers>)
    requires
        opt_finger_count(a) == opt_finger_count(b),
    ensures
        a == b,
{
}

/// A result derived from one or more reports in a stream: a tap, or a swipe
/// with a direction, each annotated with the maximum observed finger count.
#[derive(Clone, Copy, Debug, PartialEq, Eq, Structural)]
pub enum Gesture {
    Tap { fingers: Fingers },
    Swipe { fingers: Fingers, direction: Direction },
}

/// One typed, timestamped hardware event, as handed in by the device
/// transport.  The timestamp is in microseconds.
#[derive(Clone, Copy, Debug, PartialEq, Eq, Structural)]
pub struct SynEvent {
    pub time_us: i64,
    pub ev_type: u16,
    pub code: u16,
    pub value: i32,
}

/// A grouping of events that arrive together between two report boundaries.
/// Each individual event still has its own timestamp.
pub struct SynReport {
    pub events: Vec<SynEvent>,
}

/// What one event means to the gesture interpreter.
#[derive(Clone, Copy, Debug, PartialEq, Eq, Structural)]
pub enum EvKind {
    /// Overall x position, regardless of tool.
    OverallX,
    /// Overall y position, regardless of tool.
    OverallY,
    /// Selects (and empties) the slot named by the event value.
    SlotSelect,
    /// X position of the selected slot's tool.
    SlotX,
    /// Y position of the selected slot's tool.
    SlotY,
    /// Tool identity change; -1 marks the selected slot's tool as lifted.
    TrackingId,
    /// An explicit finger-count signal for the given count.
    FingerTool(Fingers),
    /// A physical button press, which invalidates the gesture in flight.
    Button,
    /// Any code the interpreter does not react to.
    Ignored,
}

/// The exhaustive classification of a numeric (type, code) pair as the event
/// kind the interpreter dispatches on.
pub open spec fn spec_event_kind(ev_type: u16, code: u16) -> EvKind {
    if ev_type == EV_ABS {
        if code == ABS_X {
            EvKind::OverallX
        } else if code == ABS_Y {
            EvKind::OverallY
        } else if code == ABS_MT_SLOT {
            EvKind::SlotSelect
        } else if code == ABS_MT_POSITION_X {
            EvKind::SlotX
        } else if code == ABS_MT_POSITION_Y {
            EvKind::SlotY
        } else if code == ABS_MT_TRACKING_ID {
            EvKind::TrackingId
        } else {
            EvKind::Ignored
        }
    } else if ev_type == EV_KEY {
        if code == BTN_LEFT || code == BTN_RIGHT {
            EvKind::Button
        } else if code == BTN_TOOL_FINGER {
            EvKind::FingerTool(Fingers::One)
        } else if code == BTN_TOOL_DOUBLETAP {
            EvKind::FingerTool(Fingers::Two)
        } else if code == BTN_TOOL_TRIPLETAP {
            EvKind::FingerTool(Fingers::Three)
        } else if code == BTN_TOOL_QUADTAP {
            EvKind::FingerTool(Fingers::Four)
        } else {
            EvKind::Ignored
        }
    } else {
        EvKind::Ignored
    }
}

/// Classifies a numeric (type, code) pair.  Codes outside the recognized
/// vocabulary yield `Ignored`, never an error.
pub fn event_kind(ev_type: u16, code: u16) -> (k: EvKind)
    ensures
        k == spec_event_kind(ev_type, code),
{
    if ev_type == EV_ABS {
        if code == ABS_X {
            EvKind::OverallX
        } else if code == ABS_Y {
            EvKind::OverallY
        } else if code == ABS_MT_SLOT {
            EvKind::SlotSelect
        } else if code == ABS_MT_POSITION_X {
            EvKind::SlotX
        } else if code == ABS_MT_POSITION_Y {
            EvKind::SlotY
        } else if code == ABS_MT_TRACKING_ID {
            EvKind::TrackingId
        } else {
            EvKind::Ignored
        }
    } else if ev_type == EV_KEY {
        if code == BTN_LEFT || code == BTN_RIGHT {
            EvKind::Button
        } else if code == BTN_TOOL_FINGER {
            EvKind::FingerTool(Fingers::One)
        } else if code == BTN_TOOL_DOUBLETAP {
            EvKind::FingerTool(Fingers::Two)
        } else if code == BTN_TOOL_TRIPLETAP {
            EvKind::FingerTool(Fingers::Three)
        } else if code == BTN_TOOL_QUADTAP {
            EvKind::FingerTool(Fingers::Four)
        } else {
            EvKind::Ignored
        }
    } else {
        EvKind::Ignored
    }
}

} // verus!
