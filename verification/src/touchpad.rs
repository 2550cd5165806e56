//! The gesture interpreter: per-slot tool tracking, per-device aggregate
//! state, and the per-report state machine that turns accumulated events
//! into at most one recognized gesture.
//!
//! The executable state lives in [`TouchpadState`] and [`EventLoop`]; its
//! mathematical mirror is [`TouchModel`], and every step of the per-report
//! algorithm is specified by a spec function over that mirror, so callers
//! can reason about whole reports symbolically.

use vstd::prelude::*;
use crate::DEBOUNCE_TIME_US;
use crate::EVENT_TIMEOUT_US;
use crate::INITIAL_SLOTS;
use crate::MIN_SWIPE_DISTANCE;
use crate::events::EvKind;
use crate::events::EV_KEY;
use crate::events::EV_ABS;
use crate::events::EV_SYN;
use crate::events::SYN_REPORT;
use crate::events::Fingers;
use crate::events::Gesture;
use crate::events::SynEvent;
use crate::events::SynReport;
use crate::events::event_kind;
use crate::events::fingers_from_count;
use crate::events::fingers_of_count;
use crate::events::opt_finger_count;
use crate::events::opt_fingers_value;
use crate::events::spec_event_kind;
use crate::geometry::Position;
use crate::geometry::dist2;
use crate::geometry::distance_squared;
use crate::geometry::get_direction;
use crate::geometry::spec_direction;

verus! {

/// Per-tool tracking record.  A slot is active iff it has a recorded start
/// position and its tool has not been lifted.
#[derive(Clone, Copy, Debug, PartialEq, Eq, Structural)]
pub struct SlotState {
    pub complete: bool,
    pub start_xy: Option<Position>,
    pub end_xy: Option<Position>,
}

/// A freshly selected slot: no positions yet, tool not lifted.
pub open spec fn empty_slot() -> SlotState {
    SlotState { complete: false, start_xy: None, end_xy: None }
}

/// The last known position of a slot's tool: the most recent one if the tool
/// moved, otherwise where it came down.
pub open spec fn slot_pos(s: SlotState) -> Option<Position> {
    if s.end_xy is Some {
        s.end_xy
    } else {
        s.start_xy
    }
}

/// Whether a slot currently tracks a tool that is on the pad.
pub open spec fn slot_is_active(s: SlotState) -> bool {
    s.start_xy is Some && !s.complete
}

/// Recording a position first fixes the start, afterwards the end.
pub open spec fn spec_slot_push_position(s: SlotState, x: i32, y: i32) -> SlotState {
    if s.start_xy is None {
        SlotState { start_xy: Some(Position { x, y }), ..s }
    } else {
        SlotState { end_xy: Some(Position { x, y }), ..s }
    }
}

impl SlotState {
    /// Whether this slot has recorded any position.
    pub fn has_pos(&self) -> (r: bool)
        ensures
            r == (self.start_xy is Some),
    {
        self.start_xy.is_some()
    }

    /// Checks if a tool's `SlotState` indicates the tool is actually in use.
    /// Excludes a slot that has not yet been assigned a position (filtering
    /// out the slot preemptively emptied for non-multi-touch updates) and one
    /// already marked complete (a finger removed from the touchpad).
    pub fn is_active(&self) -> (r: bool)
        ensures
            r == slot_is_active(*self),
    {
        self.has_pos() && !self.complete
    }

    /// Records a position for this slot's tool.
    pub fn push_position(&mut self, x: i32, y: i32)
        ensures
            *final(self) == spec_slot_push_position(*old(self), x, y),
    {
        if self.start_xy.is_none() {
            self.start_xy = Some(Position { x, y });
        } else {
            self.end_xy = Some(Position { x, y });
        }
    }

    /// Returns the travel of this slot's tool, rounded down to an integer
    /// number of device units, if it both came down and moved.
    pub fn distance(&self) -> (r: Option<u64>)
        ensures
            match (self.start_xy, self.end_xy) {
                (Some(s), Some(e)) => r matches Some(d) && crate::geometry::is_isqrt(
                    dist2(s, e),
                    d as int,
                ),
                _ => r is None,
            },
    {
        match (&self.start_xy, &self.end_xy) {
            (Some(s), Some(e)) => Some(crate::geometry::get_distance(s, e)),
            _ => None,
        }
    }

    /// Returns the direction of this slot's tool travel, if it both came
    /// down and moved.
    pub fn direction(&self) -> (r: Option<crate::geometry::Direction>)
        ensures
            match (self.start_xy, self.end_xy) {
                (Some(s), Some(e)) => r == Some(spec_direction(s, e)),
                _ => r is None,
            },
    {
        match (&self.start_xy, &self.end_xy) {
            (Some(s), Some(e)) => Some(get_direction(s, e)),
            _ => None,
        }
    }
}

/// The mathematical mirror of [`TouchpadState`]: the same fields with the
/// slot table as a sequence.
pub ghost struct TouchModel {
    pub slots: Seq<Option<SlotState>>,
    pub start_xy: Option<Position>,
    pub end_xy: Option<Position>,
    pub last_ts: i64,
    pub last_gesture_time: i64,
    pub max_fingers: Option<Fingers>,
    pub last_finger: Option<Fingers>,
    pub gesture_start: Option<i64>,
    pub gesture_end: Option<i64>,
    pub with_btn_tool: bool,
    pub last_slot: Option<usize>,
}

impl TouchModel {
    /// The slot table is never empty and the remembered slot index, if any,
    /// stays inside it.
    pub open spec fn wf(self) -> bool {
        &&& self.slots.len() >= 1
        &&& (self.last_slot matches Some(i) ==> i < self.slots.len())
    }
}

/// The state a device starts a session with: a fixed number of untracked
/// slots and no gesture in flight.
pub open spec fn initial_model() -> TouchModel {
    TouchModel {
        slots: Seq::new(INITIAL_SLOTS as nat, |i: int| None),
        start_xy: None,
        end_xy: None,
        last_ts: 0,
        last_gesture_time: 0,
        max_fingers: None,
        last_finger: None,
        gesture_start: None,
        gesture_end: None,
        with_btn_tool: false,
        last_slot: None,
    }
}

/// Discarding all per-gesture state.  The debounce anchor
/// (`last_gesture_time`), the device clock (`last_ts`), the explicit-signal
/// latch (`with_btn_tool`) and the remembered slot index survive by design.
pub open spec fn spec_reset(m: TouchModel) -> TouchModel {
    TouchModel {
        slots: Seq::new(m.slots.len(), |i: int| None),
        start_xy: None,
        end_xy: None,
        max_fingers: None,
        last_finger: None,
        gesture_start: None,
        gesture_end: None,
        ..m
    }
}

/// Recording an overall position first fixes the gesture's start, afterwards
/// its end.
pub open spec fn spec_push_position(m: TouchModel, x: i32, y: i32) -> TouchModel {
    if m.start_xy is None {
        TouchModel { start_xy: Some(Position { x, y }), ..m }
    } else {
        TouchModel { end_xy: Some(Position { x, y }), ..m }
    }
}

/// The state carried through the scan of one report's events: the device
/// state plus the scan-local registers (overall position seen this report,
/// the selected slot, its per-axis position cache, and whether the scan hit
/// a condition that discards the gesture).
pub ghost struct ScanState {
    pub tp: TouchModel,
    pub overall_x: Option<i32>,
    pub overall_y: Option<i32>,
    pub cur: usize,
    pub slot_x: Option<i32>,
    pub slot_y: Option<i32>,
    pub stopped: bool,
}

/// During a scan the selected slot index is in range and selects a present
/// slot record.
pub open spec fn scan_wf(s: ScanState) -> bool {
    &&& s.cur < s.tp.slots.len()
    &&& s.tp.slots[s.cur as int] is Some
    &&& s.tp.wf()
}

/// Entering a report: make sure the selected slot (the remembered one, or
/// slot zero when no slot-select event was ever seen) holds a record, and
/// seed the per-axis cache from its last known position, so that a driver
/// omitting one axis re-uses the old value for it.
pub open spec fn scan_init(m: TouchModel) -> ScanState {
    let cur = match m.last_slot {
        Some(i) => i,
        None => 0,
    };
    let slots = if m.slots[cur as int] is Some {
        m.slots
    } else {
        m.slots.update(cur as int, Some(empty_slot()))
    };
    let sp = match slots[cur as int] {
        Some(s) => slot_pos(s),
        None => None,
    };
    let slot_x = match sp {
        Some(p) => Some(p.x),
        None => None,
    };
    let slot_y = match sp {
        Some(p) => Some(p.y),
        None => None,
    };
    ScanState {
        tp: TouchModel { slots, ..m },
        overall_x: None,
        overall_y: None,
        cur,
        slot_x,
        slot_y,
        stopped: false,
    }
}

/// Growing the slot table with untracked slots up to length `n`.
pub open spec fn grow_slots(slots: Seq<Option<SlotState>>, n: int) -> Seq<Option<SlotState>> {
    Seq::new(n as nat, |i: int| if i < slots.len() { slots[i] } else { None })
}

/// Recording a position for the selected slot's tool.
pub open spec fn scan_push_to_cur(s: ScanState, x: i32, y: i32) -> ScanState {
    match s.tp.slots[s.cur as int] {
        Some(sl) => ScanState {
            tp: TouchModel {
                slots: s.tp.slots.update(s.cur as int, Some(spec_slot_push_position(sl, x, y))),
                ..s.tp
            },
            ..s
        },
        None => s,
    }
}

/// The effect of one event on the scan state.  A stopped scan ignores the
/// rest of its report; a timestamp gap of `EVENT_TIMEOUT_US` or more, or a
/// physical button event, stops it.
pub open spec fn scan_step(s: ScanState, e: SynEvent) -> ScanState {
    if s.stopped {
        s
    } else if e.time_us - s.tp.last_ts >= EVENT_TIMEOUT_US {
        ScanState { stopped: true, ..s }
    } else {
        let s = ScanState { tp: TouchModel { last_ts: e.time_us, ..s.tp }, ..s };
        match spec_event_kind(e.ev_type, e.code) {
            EvKind::OverallX => ScanState { overall_x: Some(e.value), ..s },
            EvKind::OverallY => ScanState { overall_y: Some(e.value), ..s },
            EvKind::SlotSelect => {
                if e.value >= 0 {
                    let id = e.value as usize;
                    let slots = if id < s.tp.slots.len() {
                        s.tp.slots
                    } else {
                        grow_slots(s.tp.slots, id + 1)
                    };
                    ScanState {
                        tp: TouchModel {
                            slots: slots.update(id as int, Some(empty_slot())),
                            last_slot: Some(id),
                            ..s.tp
                        },
                        cur: id,
                        ..s
                    }
                } else {
                    s
                }
            },
            EvKind::SlotX => {
                let s2 = ScanState { slot_x: Some(e.value), ..s };
                match s.slot_y {
                    Some(y) => scan_push_to_cur(s2, e.value, y),
                    None => s2,
                }
            },
            EvKind::SlotY => {
                let s2 = ScanState { slot_y: Some(e.value), ..s };
                match s.slot_x {
                    Some(x) => scan_push_to_cur(s2, x, e.value),
                    None => s2,
                }
            },
            EvKind::FingerTool(k) => {
                if e.value == 1 {
                    ScanState {
                        tp: TouchModel {
                            with_btn_tool: true,
                            gesture_start: Some(e.time_us),
                            last_finger: Some(k),
                            ..s.tp
                        },
                        ..s
                    }
                } else if e.value == 0 {
                    ScanState {
                        tp: TouchModel {
                            last_finger: None,
                            gesture_end: if s.tp.gesture_end is Some {
                                s.tp.gesture_end
                            } else {
                                Some(e.time_us)
                            },
                            ..s.tp
                        },
                        ..s
                    }
                } else {
                    s
                }
            },
            EvKind::Button => ScanState { stopped: true, ..s },
            EvKind::TrackingId => {
                if e.value == -1 {
                    let slots = match s.tp.slots[s.cur as int] {
                        Some(sl) => s.tp.slots.update(
                            s.cur as int,
                            Some(SlotState { complete: true, ..sl }),
                        ),
                        None => s.tp.slots,
                    };
                    ScanState {
                        tp: TouchModel {
                            slots,
                            last_slot: None,
                            last_finger: None,
                            gesture_end: if s.tp.gesture_end is Some {
                                s.tp.gesture_end
                            } else {
                                Some(e.time_us)
                            },
                            ..s.tp
                        },
                        ..s
                    }
                } else {
                    s
                }
            },
            EvKind::Ignored => s,
        }
    }
}

/// The scan state after all events of a report, in order.
pub open spec fn scan_events(s: ScanState, events: Seq<SynEvent>) -> ScanState
    decreases events.len(),
{
    if events.len() == 0 {
        s
    } else {
        scan_step(scan_events(s, events.drop_last()), events.last())
    }
}

/// One event keeps the scan well-formed.
pub proof fn lemma_scan_step_wf(s: ScanState, e: SynEvent)
    requires
        scan_wf(s),
    ensures
        scan_wf(scan_step(s, e)),
{
}

/// A whole report keeps the scan well-formed.
pub proof fn lemma_scan_events_wf(s: ScanState, events: Seq<SynEvent>)
    requires
        scan_wf(s),
    ensures
        scan_wf(scan_events(s, events)),
    decreases events.len(),
{
    if events.len() > 0 {
        lemma_scan_events_wf(s, events.drop_last());
        lemma_scan_step_wf(scan_events(s, events.drop_last()), events.last());
    }
}

/// Entering a report keeps the model well-formed and selects a present slot.
pub proof fn lemma_scan_init_wf(m: TouchModel)
    requires
        m.wf(),
    ensures
        scan_wf(scan_init(m)),
{
}

/// The number of slots whose tool is on the pad, counting from index `i`.
pub open spec fn count_active_from(slots: Seq<Option<SlotState>>, i: int) -> int
    decreases slots.len() - i,
{
    if i < 0 || i >= slots.len() {
        0
    } else {
        (match slots[i] {
            Some(s) => if slot_is_active(s) { 1 as int } else { 0 },
            None => 0,
        }) + count_active_from(slots, i + 1)
    }
}

/// The last known position of the first slot that has one, searching from
/// index `i`.  Stands in for the overall position on devices that never
/// report one.
pub open spec fn find_slot_pos_from(slots: Seq<Option<SlotState>>, i: int) -> Option<Position>
    decreases slots.len() - i,
{
    if i < 0 || i >= slots.len() {
        None
    } else {
        match slots[i] {
            Some(s) => match slot_pos(s) {
                Some(p) => Some(p),
                None => find_slot_pos_from(slots, i + 1),
            },
            None => find_slot_pos_from(slots, i + 1),
        }
    }
}

/// The implicit finger-count fallback, for devices that never emit the four
/// explicit per-count key codes: after a non-empty report, if no explicit
/// signal was ever latched, an increase of the active-slot count over the
/// running maximum starts a new count, and a decrease while a count was
/// active ends the pressed phase.
pub open spec fn spec_fallback(m: TouchModel, events: Seq<SynEvent>) -> TouchModel {
    if events.len() > 0 && !m.with_btn_tool {
        let active = count_active_from(m.slots, 0);
        let t = events.last().time_us;
        let maxc = opt_finger_count(m.max_fingers);
        if active > maxc {
            TouchModel {
                gesture_start: Some(t),
                last_finger: Some(fingers_of_count(active)),
                ..m
            }
        } else if active < maxc && m.last_finger is Some {
            TouchModel { last_finger: None, gesture_end: Some(t), ..m }
        } else {
            m
        }
    } else {
        m
    }
}

/// The high-water-mark update: when the observed finger count exceeds the
/// running maximum, everything recorded so far was build-up, so the start
/// position is discarded and the maximum raised.
pub open spec fn spec_mark_high_water(m: TouchModel) -> TouchModel {
    if m.max_fingers is None || opt_finger_count(m.last_finger) > opt_finger_count(m.max_fingers) {
        TouchModel { start_xy: None, max_fingers: m.last_finger, ..m }
    } else {
        m
    }
}

/// The overall position for this report: what the report said, or, if either
/// axis is missing, the first tracked slot's position as a stand-in.
pub open spec fn spec_overall(m: TouchModel, ox: Option<i32>, oy: Option<i32>) -> (
    Option<i32>,
    Option<i32>,
) {
    if ox is None || oy is None {
        match find_slot_pos_from(m.slots, 0) {
            Some(p) => (Some(p.x), Some(p.y)),
            None => (ox, oy),
        }
    } else {
        (ox, oy)
    }
}

/// Position ingestion: a complete overall position extends the gesture, but
/// only while the observed finger count still equals the high-water mark; a
/// decrease is tear-down and its position change is ignored.
pub open spec fn spec_ingest(m: TouchModel, ox: Option<i32>, oy: Option<i32>) -> TouchModel {
    match (ox, oy) {
        (Some(x), Some(y)) => {
            if m.max_fingers == m.last_finger {
                spec_push_position(m, x, y)
            } else {
                m
            }
        },
        _ => m,
    }
}

/// The finalization attempt once all tracked tools are lifted.  No start
/// position or no observed finger count yields nothing and leaves the state
/// alone.  Otherwise the debounce rule applies: within `DEBOUNCE_TIME_US` of
/// the previously emitted gesture the result is suppressed and the state
/// still resets; an accepted gesture re-anchors the debounce window and is
/// classified by its travel.
pub open spec fn spec_process(m: TouchModel) -> (TouchModel, Option<Gesture>) {
    if m.start_xy is None {
        (m, None)
    } else {
        match m.max_fingers {
            None => (m, None),
            Some(fingers) => {
                let accepted = m.last_ts - m.last_gesture_time > DEBOUNCE_TIME_US;
                match (m.start_xy, m.end_xy) {
                    (Some(sp), Some(ep)) => {
                        if accepted {
                            let m2 = TouchModel { last_gesture_time: m.last_ts, ..m };
                            if dist2(sp, ep) < MIN_SWIPE_DISTANCE * MIN_SWIPE_DISTANCE {
                                (m2, Some(Gesture::Tap { fingers }))
                            } else {
                                (m2, Some(Gesture::Swipe {
                                    fingers,
                                    direction: spec_direction(sp, ep),
                                }))
                            }
                        } else {
                            (spec_reset(m), None)
                        }
                    },
                    (Some(sp), None) => {
                        if accepted {
                            let m2 = TouchModel { last_gesture_time: m.last_ts, ..m };
                            (m2, Some(Gesture::Tap { fingers }))
                        } else {
                            (spec_reset(m), None)
                        }
                    },
                    _ => (m, None),
                }
            },
        }
    }
}

/// The whole per-report algorithm: scan the events, apply the implicit
/// finger-count fallback, and either discard everything (timeout or button)
/// or update the high-water mark, ingest the overall position, and, once the
/// finger count has returned to none, attempt finalization.  An emitted
/// gesture resets all per-gesture state.
pub open spec fn spec_update(m: TouchModel, events: Seq<SynEvent>) -> (TouchModel, Option<
    Gesture,
>) {
    let s = scan_events(scan_init(m), events);
    let m1 = spec_fallback(s.tp, events);
    if s.stopped {
        (spec_reset(m1), None)
    } else {
        let m2 = spec_mark_high_water(m1);
        let (ox, oy) = spec_overall(m2, s.overall_x, s.overall_y);
        let m3 = spec_ingest(m2, ox, oy);
        if m3.last_finger is None {
            let (m4, r) = spec_process(m3);
            match r {
                Some(g) => (spec_reset(m4), Some(g)),
                None => (m4, None),
            }
        } else {
            (m3, None)
        }
    }
}

/// A multitouch trackpad driver tracks the location of each tool (finger) in
/// a separate slot and reports on all of them simultaneously.
/// `TouchpadState` tracks the status of all slots together with the
/// per-device aggregate state of the gesture in flight.
pub struct TouchpadState {
    pub slot_states: Vec<Option<SlotState>>,
    pub start_xy: Option<Position>,
    pub end_xy: Option<Position>,
    pub last_ts: i64,
    pub last_gesture_time: i64,
    pub max_fingers: Option<Fingers>,
    pub last_finger: Option<Fingers>,
    pub gesture_start: Option<i64>,
    pub gesture_end: Option<i64>,
    pub with_btn_tool: bool,
    pub last_slot: Option<usize>,
}

impl View for TouchpadState {
    type V = TouchModel;

    open spec fn view(&self) -> TouchModel {
        TouchModel {
            slots: self.slot_states@,
            start_xy: self.start_xy,
            end_xy: self.end_xy,
            last_ts: self.last_ts,
            last_gesture_time: self.last_gesture_time,
            max_fingers: self.max_fingers,
            last_finger: self.last_finger,
            gesture_start: self.gesture_start,
            gesture_end: self.gesture_end,
            with_btn_tool: self.with_btn_tool,
            last_slot: self.last_slot,
        }
    }
}

/// The scan-local registers of one report: the overall position seen so far,
/// the selected slot, the per-axis cache of its position, and whether the
/// scan hit a condition that discards the gesture.
struct ScanCtx {
    overall_x: Option<i32>,
    overall_y: Option<i32>,
    cur: usize,
    slot_x: Option<i32>,
    slot_y: Option<i32>,
    stopped: bool,
}

spec fn scan_view(m: TouchModel, c: ScanCtx) -> ScanState {
    ScanState {
        tp: m,
        overall_x: c.overall_x,
        overall_y: c.overall_y,
        cur: c.cur,
        slot_x: c.slot_x,
        slot_y: c.slot_y,
        stopped: c.stopped,
    }
}

/// Sets every slot back to untracked, keeping the table's length.
fn clear_slots(v: &mut Vec<Option<SlotState>>)
    ensures
        final(v)@ == Seq::new(old(v)@.len(), |i: int| None::<SlotState>),
{
    let n = v.len();
    let mut i: usize = 0;
    while i < n
        invariant
            i <= n,
            n == v@.len(),
            forall|j: int| 0 <= j < i ==> v@[j] is None,
        decreases n - i,
    {
        v[i] = None;
        i += 1;
    }
    proof {
        assert(v@ =~= Seq::new(v@.len(), |j: int| None::<SlotState>));
    }
}

/// Appends untracked slots until the table has length `n`.
fn grow_slots_exec(v: &mut Vec<Option<SlotState>>, n: usize)
    requires
        old(v)@.len() < n,
    ensures
        final(v)@ == grow_slots(old(v)@, n as int),
{
    let ghost pre = v@;
    while v.len() < n
        invariant
            pre.len() <= v@.len() <= n,
            forall|j: int| 0 <= j < pre.len() ==> v@[j] == pre[j],
            forall|j: int| pre.len() <= j < v@.len() ==> v@[j] is None,
        decreases n - v.len(),
    {
        v.push(None);
    }
    proof {
        assert(v@ =~= grow_slots(pre, n as int));
    }
}

impl SlotState {
    /// The tool's last known position: the most recent one if it moved,
    /// otherwise where it came down.
    pub fn pos(&self) -> (r: Option<Position>)
        ensures
            r == slot_pos(*self),
    {
        match self.end_xy {
            Some(p) => Some(p),
            None => self.start_xy,
        }
    }
}

impl TouchpadState {
    /// A fresh device state: `INITIAL_SLOTS` untracked slots, no gesture in
    /// flight.
    pub fn new() -> (t: TouchpadState)
        ensures
            t@ == initial_model(),
    {
        let mut slots: Vec<Option<SlotState>> = Vec::new();
        while slots.len() < INITIAL_SLOTS
            invariant
                slots@.len() <= INITIAL_SLOTS,
                forall|j: int| 0 <= j < slots@.len() ==> slots@[j] is None,
            decreases INITIAL_SLOTS - slots.len(),
        {
            slots.push(None);
        }
        let t = TouchpadState {
            slot_states: slots,
            start_xy: None,
            end_xy: None,
            last_ts: 0,
            last_gesture_time: 0,
            max_fingers: None,
            last_finger: None,
            gesture_start: None,
            gesture_end: None,
            with_btn_tool: false,
            last_slot: None,
        };
        proof {
            assert(t@.slots =~= initial_model().slots);
        }
        t
    }

    /// Discards all per-gesture state.  The debounce anchor
    /// (`last_gesture_time`) survives by design, as do the device clock, the
    /// explicit-signal latch and the remembered slot index.
    pub fn reset(&mut self)
        ensures
            final(self)@ == spec_reset(old(self)@),
    {
        clear_slots(&mut self.slot_states);
        self.start_xy = None;
        self.end_xy = None;
        self.max_fingers = None;
        self.last_finger = None;
        self.gesture_start = None;
        self.gesture_end = None;
    }

    /// Records an overall position: the first fixes the gesture's start,
    /// later ones its end.
    pub fn push_position(&mut self, x: i32, y: i32)
        ensures
            final(self)@ == spec_push_position(old(self)@, x, y),
    {
        if self.start_xy.is_none() {
            self.start_xy = Some(Position { x, y });
        } else {
            self.end_xy = Some(Position { x, y });
        }
    }

    /// Counts the slots whose tool is currently on the pad.
    fn count_active(&self) -> (n: usize)
        ensures
            n == count_active_from(self@.slots, 0),
    {
        let len = self.slot_states.len();
        let mut count: usize = 0;
        let mut i: usize = 0;
        while i < len
            invariant
                i <= len,
                count <= i,
                len == self@.slots.len(),
                count_active_from(self@.slots, 0) == count + count_active_from(
                    self@.slots,
                    i as int,
                ),
            decreases len - i,
        {
            match &self.slot_states[i] {
                Some(s) => {
                    if s.is_active() {
                        count += 1;
                    }
                },
                None => {},
            }
            i += 1;
        }
        count
    }

    /// The last known position of the first slot that has one.
    fn find_slot_pos(&self) -> (r: Option<Position>)
        ensures
            r == find_slot_pos_from(self@.slots, 0),
    {
        let len = self.slot_states.len();
        let mut i: usize = 0;
        while i < len
            invariant
                i <= len,
                len == self@.slots.len(),
                find_slot_pos_from(self@.slots, 0) == find_slot_pos_from(self@.slots, i as int),
            decreases len - i,
        {
            match &self.slot_states[i] {
                Some(s) => {
                    match s.pos() {
                        Some(p) => {
                            return Some(p);
                        },
                        None => {},
                    }
                },
                None => {},
            }
            i += 1;
        }
        None
    }

    /// Records a position for the tool in slot `idx`.
    fn push_slot(&mut self, idx: usize, x: i32, y: i32)
        requires
            idx < old(self).slot_states@.len(),
            old(self).slot_states@[idx as int] is Some,
        ensures
            final(self)@ == ({
                let sl = match old(self)@.slots[idx as int] {
                    Some(s) => s,
                    None => empty_slot(),
                };
                TouchModel {
                    slots: old(self)@.slots.update(
                        idx as int,
                        Some(spec_slot_push_position(sl, x, y)),
                    ),
                    ..old(self)@
                }
            }),
    {
        let mut sl = match &self.slot_states[idx] {
            Some(s) => *s,
            None => SlotState { complete: false, start_xy: None, end_xy: None },
        };
        sl.push_position(x, y);
        self.slot_states[idx] = Some(sl);
    }

    /// Marks the tool in slot `idx` as lifted.
    fn complete_slot(&mut self, idx: usize)
        requires
            idx < old(self).slot_states@.len(),
        ensures
            final(self)@ == ({
                let slots = match old(self)@.slots[idx as int] {
                    Some(sl) => old(self)@.slots.update(
                        idx as int,
                        Some(SlotState { complete: true, ..sl }),
                    ),
                    None => old(self)@.slots,
                };
                TouchModel { slots, ..old(self)@ }
            }),
    {
        match &self.slot_states[idx] {
            Some(s) => {
                let mut sl = *s;
                sl.complete = true;
                self.slot_states[idx] = Some(sl);
            },
            None => {},
        }
    }

    /// Applies one event of the report being scanned.
    fn apply_event(&mut self, ctx: &mut ScanCtx, e: &SynEvent)
        requires
            scan_wf(scan_view(old(self)@, *old(ctx))),
        ensures
            scan_view(final(self)@, *final(ctx)) == scan_step(
                scan_view(old(self)@, *old(ctx)),
                *e,
            ),
    {
        if ctx.stopped {
            return;
        }
        if (e.time_us as i128) - (self.last_ts as i128) >= (EVENT_TIMEOUT_US as i128) {
            ctx.stopped = true;
            return;
        }
        self.last_ts = e.time_us;
        match event_kind(e.ev_type, e.code) {
            EvKind::OverallX => {
                ctx.overall_x = Some(e.value);
            },
            EvKind::OverallY => {
                ctx.overall_y = Some(e.value);
            },
            EvKind::SlotSelect => {
                if e.value >= 0 {
                    let id = e.value as usize;
                    if id >= self.slot_states.len() {
                        grow_slots_exec(&mut self.slot_states, id + 1);
                    }
                    self.slot_states[id] = Some(
                        SlotState { complete: false, start_xy: None, end_xy: None },
                    );
                    ctx.cur = id;
                    self.last_slot = Some(id);
                }
            },
            EvKind::SlotX => {
                ctx.slot_x = Some(e.value);
                match ctx.slot_y {
                    Some(y) => {
                        self.push_slot(ctx.cur, e.value, y);
                    },
                    None => {},
                }
            },
            EvKind::SlotY => {
                ctx.slot_y = Some(e.value);
                match ctx.slot_x {
                    Some(x) => {
                        self.push_slot(ctx.cur, x, e.value);
                    },
                    None => {},
                }
            },
            EvKind::FingerTool(k) => {
                if e.value == 1 {
                    self.with_btn_tool = true;
                    self.gesture_start = Some(e.time_us);
                    self.last_finger = Some(k);
                } else if e.value == 0 {
                    self.last_finger = None;
                    if self.gesture_end.is_none() {
                        self.gesture_end = Some(e.time_us);
                    }
                }
            },
            EvKind::Button => {
                ctx.stopped = true;
            },
            EvKind::TrackingId => {
                if e.value == -1 {
                    self.complete_slot(ctx.cur);
                    self.last_slot = None;
                    self.last_finger = None;
                    if self.gesture_end.is_none() {
                        self.gesture_end = Some(e.time_us);
                    }
                }
            },
            EvKind::Ignored => {},
        }
    }

    /// The finalization attempt, run when the finger count has returned to
    /// none.  See [`spec_process`] for the exact rule.
    fn process(&mut self) -> (r: Option<Gesture>)
        ensures
            final(self)@ == spec_process(old(self)@).0,
            r == spec_process(old(self)@).1,
    {
        let start = match self.start_xy {
            Some(s) => s,
            None => {
                return None;
            },
        };
        let fingers = match self.max_fingers {
            Some(f) => f,
            None => {
                return None;
            },
        };
        let accepted = (self.last_ts as i128) - (self.last_gesture_time as i128) > (
        DEBOUNCE_TIME_US as i128);
        match self.end_xy {
            Some(end) => {
                if accepted {
                    self.last_gesture_time = self.last_ts;
                    let d2 = distance_squared(&start, &end);
                    let thr: u128 = MIN_SWIPE_DISTANCE as u128;
                    assert(thr * thr == MIN_SWIPE_DISTANCE * MIN_SWIPE_DISTANCE) by (nonlinear_arith)
                        requires
                            thr == MIN_SWIPE_DISTANCE,
                    ;
                    if d2 < thr * thr {
                        Some(Gesture::Tap { fingers })
                    } else {
                        Some(Gesture::Swipe { fingers, direction: get_direction(&start, &end) })
                    }
                } else {
                    self.reset();
                    None
                }
            },
            None => {
                if accepted {
                    self.last_gesture_time = self.last_ts;
                    Some(Gesture::Tap { fingers })
                } else {
                    self.reset();
                    None
                }
            },
        }
    }

    /// Processes one complete report: every event accumulated since the
    /// previous boundary, in order.  Returns the recognized gesture, if this
    /// report finalized one.
    #[verifier::rlimit(100)]
    pub fn update(&mut self, report: &SynReport) -> (r: Option<Gesture>)
        requires
            old(self)@.wf(),
        ensures
            final(self)@ == spec_update(old(self)@, report.events@).0,
            r == spec_update(old(self)@, report.events@).1,
            final(self)@.wf(),
    {
        proof {
            lemma_scan_init_wf(old(self)@);
        }
        let ghost s0 = scan_init(old(self)@);

        // Enter the report: make sure the selected slot holds a record and
        // seed the per-axis cache from its last known position.
        let cur: usize = match self.last_slot {
            Some(i) => i,
            None => 0,
        };
        if self.slot_states[cur].is_none() {
            self.slot_states[cur] = Some(
                SlotState { complete: false, start_xy: None, end_xy: None },
            );
        }
        let sp = match &self.slot_states[cur] {
            Some(s) => s.pos(),
            None => None,
        };
        let mut ctx = ScanCtx {
            overall_x: None,
            overall_y: None,
            cur,
            slot_x: match sp {
                Some(p) => Some(p.x),
                None => None,
            },
            slot_y: match sp {
                Some(p) => Some(p.y),
                None => None,
            },
            stopped: false,
        };
        assert(scan_view(self@, ctx) == s0);

        let n = report.events.len();
        let mut i: usize = 0;
        while i < n
            invariant
                i <= n,
                n == report.events@.len(),
                s0 == scan_init(old(self)@),
                scan_wf(scan_view(self@, ctx)),
                scan_view(self@, ctx) == scan_events(s0, report.events@.take(i as int)),
            decreases n - i,
        {
            let ghost prev = scan_view(self@, ctx);
            let e = report.events[i];
            self.apply_event(&mut ctx, &e);
            proof {
                lemma_scan_step_wf(prev, e);
                assert(report.events@.take(i as int + 1).drop_last() =~= report.events@.take(
                    i as int,
                ));
            }
            i += 1;
        }
        proof {
            assert(report.events@.take(n as int) =~= report.events@);
        }
        let ghost sfin = scan_events(s0, report.events@);
        assert(scan_view(self@, ctx) == sfin);

        // Implicit finger-count fallback for devices that never emit the
        // explicit per-count key codes.
        if n > 0 && !self.with_btn_tool {
            let active = self.count_active();
            let t = report.events[n - 1].time_us;
            let maxc = opt_fingers_value(&self.max_fingers);
            if active > maxc as usize {
                self.gesture_start = Some(t);
                self.last_finger = Some(fingers_from_count(active));
            } else if active < maxc as usize && self.last_finger.is_some() {
                self.last_finger = None;
                self.gesture_end = Some(t);
            }
        }
        let ghost m1 = spec_fallback(sfin.tp, report.events@);
        assert(self@ == m1);

        if ctx.stopped {
            self.reset();
            return None;
        }

        // High-water mark: a growing finger count discards the start
        // position recorded while building up.
        if self.max_fingers.is_none() || opt_fingers_value(&self.last_finger) > opt_fingers_value(
            &self.max_fingers,
        ) {
            self.start_xy = None;
            self.max_fingers = self.last_finger;
        }
        let ghost m2 = spec_mark_high_water(m1);
        assert(self@ == m2);

        // Overall position: what the report said, or a tracked slot's
        // position as a stand-in.
        let mut ox = ctx.overall_x;
        let mut oy = ctx.overall_y;
        if ox.is_none() || oy.is_none() {
            match self.find_slot_pos() {
                Some(p) => {
                    ox = Some(p.x);
                    oy = Some(p.y);
                },
                None => {},
            }
        }
        assert((ox, oy) == spec_overall(m2, sfin.overall_x, sfin.overall_y));

        // Position ingestion: only while the observed finger count still
        // equals the high-water mark; a decrease is tear-down.
        match (ox, oy) {
            (Some(x), Some(y)) => {
                let mv = opt_fingers_value(&self.max_fingers);
                let lv = opt_fingers_value(&self.last_finger);
                if mv == lv {
                    proof {
                        crate::events::lemma_opt_finger_count_injective(
                            self@.max_fingers,
                            self@.last_finger,
                        );
                    }
                    self.push_position(x, y);
                }
            },
            _ => {},
        }
        let ghost m3 = spec_ingest(m2, ox, oy);
        assert(self@ == m3);

        // Finalization: once the finger count has returned to none.
        if self.last_finger.is_none() {
            let g = self.process();
            match g {
                Some(gesture) => {
                    self.reset();
                    return Some(gesture);
                },
                None => {
                    return None;
                },
            }
        }
        None
    }
}

/// The entry point of the interpreter for one device: accumulates events
/// into the current report and runs the state machine at each report
/// boundary.
pub struct EventLoop {
    pub report: SynReport,
    pub state: TouchpadState,
}

/// What one call of [`EventLoop::add_event`] does: a report boundary runs
/// the state machine over the accumulated report and clears it; a key or
/// absolute-axis event is appended to the report; anything else is ignored.
pub open spec fn spec_add_event(
    report: Seq<SynEvent>,
    m: TouchModel,
    time_us: i64,
    ev_type: u16,
    code: u16,
    value: i32,
) -> (Seq<SynEvent>, TouchModel, Option<Gesture>) {
    if ev_type == EV_SYN && code == SYN_REPORT {
        let (m2, r) = spec_update(m, report);
        (Seq::empty(), m2, r)
    } else if ev_type == EV_KEY || ev_type == EV_ABS {
        (report.push(SynEvent { time_us, ev_type, code, value }), m, None)
    } else {
        (report, m, None)
    }
}

impl EventLoop {
    /// A fresh interpreter with an empty report and the initial device state.
    pub fn new() -> (el: EventLoop)
        ensures
            el.state@ == initial_model(),
            el.report.events@ == Seq::<SynEvent>::empty(),
            el.state@.wf(),
    {
        EventLoop { report: SynReport { events: Vec::new() }, state: TouchpadState::new() }
    }

    /// Consumes one raw event.  Returns a gesture exactly when this event is
    /// a report boundary whose report finalizes one.
    pub fn add_event(&mut self, time_us: i64, ev_type: u16, code: u16, value: i32) -> (r: Option<
        Gesture,
    >)
        requires
            old(self).state@.wf(),
        ensures
            final(self).state@.wf(),
            final(self).report.events@ == spec_add_event(
                old(self).report.events@,
                old(self).state@,
                time_us,
                ev_type,
                code,
                value,
            ).0,
            final(self).state@ == spec_add_event(
                old(self).report.events@,
                old(self).state@,
                time_us,
                ev_type,
                code,
                value,
            ).1,
            r == spec_add_event(
                old(self).report.events@,
                old(self).state@,
                time_us,
                ev_type,
                code,
                value,
            ).2,
    {
        if ev_type == EV_SYN && code == SYN_REPORT {
            let result = self.state.update(&self.report);
            self.report.events.clear();
            result
        } else if ev_type == EV_KEY || ev_type == EV_ABS {
            self.report.events.push(SynEvent { time_us, ev_type, code, value });
            None
        } else {
            None
        }
    }
}

} // verus!
