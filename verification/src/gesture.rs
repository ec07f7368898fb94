//! The swipe state machine: accumulates motion between a begin and the
//! matching end event, then classifies the total into at most one event.
//!
//! The accumulator exists only while a gesture is in progress. A begin
//! event zeroes it and starts accumulating; each update adds its deltas and
//! overwrites the finger count with the last observed value; the end event
//! classifies the totals and returns to idle; a hold event aborts the
//! gesture without emitting anything. Deltas use the fixed-point unit of
//! [`crate::swipe`] and are clamped to [`SWIPE_DELTA_LIMIT`] per axis, far
//! beyond any physical swipe, so accumulation can never overflow.

use vstd::prelude::*;

use crate::commands::InputCommand;
use crate::swipe::{spec_classify, spec_swipe_detected, swipe_process, SWIPE_DELTA_LIMIT};

verus! {

/// The classifier's state: idle, or between a begin and an end event with
/// the motion accumulated so far.
#[derive(Clone, Copy, Debug, Eq, PartialEq, Structural)]
pub enum GestureState {
    Idle,
    Accumulating { dx: i64, dy: i64, finger_count: i32 },
}

/// One raw swipe event from the device, already reduced to plain values:
/// the begin, update and end phases of a swipe gesture.
#[derive(Clone, Copy, Debug, Eq, PartialEq, Structural)]
pub enum GestureSwipeEvent {
    Begin { finger_count: i32 },
    Update { dx: i64, dy: i64, finger_count: i32 },
    End,
}

/// A delta clamped to the magnitude the accumulator accepts.
pub open spec fn spec_clamp_delta(x: int) -> int {
    if x < -SWIPE_DELTA_LIMIT {
        -SWIPE_DELTA_LIMIT as int
    } else if x > SWIPE_DELTA_LIMIT {
        SWIPE_DELTA_LIMIT as int
    } else {
        x
    }
}

/// One axis of accumulation: the clamped delta is added to the running
/// total and the sum is clamped again, so the total stays in bounds.
pub open spec fn spec_accumulate(total: int, delta: int) -> int {
    spec_clamp_delta(total + spec_clamp_delta(delta))
}

/// The state after an update event: idle stays idle (no gesture is in
/// progress to account the motion to); an accumulating gesture adds the
/// deltas and takes the update's finger count as the last observed one.
pub open spec fn spec_update_state(s: GestureState, dx: int, dy: int, finger_count: i32) -> GestureState {
    match s {
        GestureState::Idle => GestureState::Idle,
        GestureState::Accumulating { dx: tx, dy: ty, finger_count: _ } => GestureState::Accumulating {
            dx: spec_accumulate(tx as int, dx) as i64,
            dy: spec_accumulate(ty as int, dy) as i64,
            finger_count,
        },
    }
}

/// What classifying the current state emits: nothing when idle, else the
/// classification of the accumulated totals with the last observed finger
/// count.
pub open spec fn spec_process_swipe(s: GestureState) -> Option<InputCommand> {
    match s {
        GestureState::Idle => None,
        GestureState::Accumulating { dx, dy, finger_count } => spec_swipe_detected(
            spec_classify(dx as int, dy as int),
            finger_count,
        ),
    }
}

/// The state a raw swipe event moves the machine to.
pub open spec fn spec_handle_state(s: GestureState, e: GestureSwipeEvent) -> GestureState {
    match e {
        GestureSwipeEvent::Begin { finger_count: _ } => GestureState::Accumulating {
            dx: 0,
            dy: 0,
            finger_count: 0,
        },
        GestureSwipeEvent::Update { dx, dy, finger_count } => spec_update_state(
            s,
            dx as int,
            dy as int,
            finger_count,
        ),
        GestureSwipeEvent::End => GestureState::Idle,
    }
}

/// The event a raw swipe event emits: only the end event can emit one.
pub open spec fn spec_handle_emit(s: GestureState, e: GestureSwipeEvent) -> Option<InputCommand> {
    match e {
        GestureSwipeEvent::End => spec_process_swipe(s),
        _ => None,
    }
}

fn clamp_delta(x: i64) -> (r: i64)
    ensures
        r == spec_clamp_delta(x as int),
{
    if x < -SWIPE_DELTA_LIMIT {
        -SWIPE_DELTA_LIMIT
    } else if x > SWIPE_DELTA_LIMIT {
        SWIPE_DELTA_LIMIT
    } else {
        x
    }
}

/// The swipe classifier. Owns the in-progress gesture state exclusively;
/// the event loop feeds it raw events and forwards what it emits.
pub struct SwaypedGesture {
    pub state: GestureState,
}

impl SwaypedGesture {
    /// The accumulated totals stay within the clamp bound, so that
    /// classification arithmetic cannot overflow.
    pub open spec fn wf(self) -> bool {
        match self.state {
            GestureState::Idle => true,
            GestureState::Accumulating { dx, dy, finger_count: _ } => -SWIPE_DELTA_LIMIT <= dx
                <= SWIPE_DELTA_LIMIT && -SWIPE_DELTA_LIMIT <= dy <= SWIPE_DELTA_LIMIT,
        }
    }

    /// A fresh classifier, idle.
    pub fn new() -> (g: Self)
        ensures
            g.state == GestureState::Idle,
            g.wf(),
    {
        SwaypedGesture { state: GestureState::Idle }
    }

    /// Aborts any in-progress gesture: the accumulator is discarded and
    /// the machine returns to idle without emitting anything.
    pub fn reset(&mut self)
        ensures
            final(self).state == GestureState::Idle,
            final(self).wf(),
    {
        self.state = GestureState::Idle;
    }

    /// A begin event: the accumulator is reset to zero and accumulation
    /// starts. The finger count the begin event carries is informational;
    /// the count that matters is the last one observed during updates.
    pub fn begin(&mut self, _finger_count: i32)
        ensures
            final(self).state == (GestureState::Accumulating { dx: 0, dy: 0, finger_count: 0 }),
            final(self).wf(),
    {
        self.state = GestureState::Accumulating { dx: 0, dy: 0, finger_count: 0 };
    }

    /// An update event: adds the deltas to the accumulator and overwrites
    /// the finger count with the update's value. Ignored when no gesture
    /// is in progress.
    pub fn update(&mut self, dx: i64, dy: i64, finger_count: i32)
        requires
            old(self).wf(),
        ensures
            final(self).state == spec_update_state(old(self).state, dx as int, dy as int, finger_count),
            final(self).wf(),
    {
        match self.state {
            GestureState::Idle => {},
            GestureState::Accumulating { dx: tx, dy: ty, finger_count: _ } => {
                let ndx = clamp_delta(tx + clamp_delta(dx));
                let ndy = clamp_delta(ty + clamp_delta(dy));
                self.state = GestureState::Accumulating { dx: ndx, dy: ndy, finger_count };
            },
        }
    }

    /// Classifies the accumulated totals without changing state: the event
    /// the gesture would emit if it ended now, or nothing.
    pub fn process_swipe(&self) -> (r: Option<InputCommand>)
        requires
            self.wf(),
        ensures
            r == spec_process_swipe(self.state),
    {
        match self.state {
            GestureState::Idle => None,
            GestureState::Accumulating { dx, dy, finger_count } => swipe_process(
                dx,
                dy,
                finger_count,
            ),
        }
    }

    /// An end event: classifies the accumulated totals, emits at most one
    /// event, and returns to idle.
    pub fn terminate(&mut self) -> (r: Option<InputCommand>)
        requires
            old(self).wf(),
        ensures
            final(self).state == GestureState::Idle,
            final(self).wf(),
            r == spec_process_swipe(old(self).state),
    {
        let r = self.process_swipe();
        self.state = GestureState::Idle;
        r
    }

    /// Dispatches one raw swipe event: begin and update drive the
    /// accumulator, end classifies and emits.
    pub fn handle_event(&mut self, event: &GestureSwipeEvent) -> (r: Option<InputCommand>)
        requires
            old(self).wf(),
        ensures
            final(self).state == spec_handle_state(old(self).state, *event),
            final(self).wf(),
            r == spec_handle_emit(old(self).state, *event),
    {
        match event {
            GestureSwipeEvent::Begin { finger_count } => {
                self.begin(*finger_count);
                None
            },
            GestureSwipeEvent::Update { dx, dy, finger_count } => {
                self.update(*dx, *dy, *finger_count);
                None
            },
            GestureSwipeEvent::End => self.terminate(),
        }
    }

    /// The horizontal total accumulated so far; zero when idle.
    pub open spec fn spec_dx(self) -> i64 {
        match self.state {
            GestureState::Idle => 0,
            GestureState::Accumulating { dx, .. } => dx,
        }
    }

    /// The vertical total accumulated so far; zero when idle.
    pub open spec fn spec_dy(self) -> i64 {
        match self.state {
            GestureState::Idle => 0,
            GestureState::Accumulating { dy, .. } => dy,
        }
    }

    /// The last observed finger count; zero when idle.
    pub open spec fn spec_finger_count(self) -> i32 {
        match self.state {
            GestureState::Idle => 0,
            GestureState::Accumulating { finger_count, .. } => finger_count,
        }
    }

    /// Reads the horizontal total accumulated so far; zero when idle.
    pub fn dx(&self) -> (r: i64)
        ensures
            r == self.spec_dx(),
    {
        match self.state {
            GestureState::Idle => 0,
            GestureState::Accumulating { dx, .. } => dx,
        }
    }

    /// Reads the vertical total accumulated so far; zero when idle.
    pub fn dy(&self) -> (r: i64)
        ensures
            r == self.spec_dy(),
    {
        match self.state {
            GestureState::Idle => 0,
            GestureState::Accumulating { dy, .. } => dy,
        }
    }

    /// Reads the last observed finger count; zero when idle.
    pub fn finger_count(&self) -> (r: i32)
        ensures
            r == self.spec_finger_count(),
    {
        match self.state {
            GestureState::Idle => 0,
            GestureState::Accumulating { finger_count, .. } => finger_count,
        }
    }
}

} // verus!
