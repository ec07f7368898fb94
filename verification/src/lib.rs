//! Turns raw touchpad and pointer gesture readings into compositor commands.
//!
//! The crate holds the decision core of a gesture daemon: a swipe
//! classifier that accumulates per-event deltas into one directional
//! judgment, a configuration-driven table that maps discrete input events
//! to output commands, a router that resolves each event to the action the
//! daemon must perform, the smallest-unused-workspace computation, and the
//! bounded command queue of the event loop. Device I/O, the compositor
//! connection and configuration-file reading live outside the crate and
//! hand these functions plain values.

pub mod commands;
pub mod config;
pub mod gesture;
pub mod pointer;
pub mod swipe;

use vstd::prelude::*;

use crate::commands::InputCommand;
use crate::gesture::{
    spec_handle_emit, spec_handle_state, GestureState, GestureSwipeEvent, SwaypedGesture,
};
use crate::pointer::{pointer_handle_scroll_event, spec_scroll_command};

verus! {

/// One raw device event, reduced to plain values: a hold (which aborts
/// any in-progress gesture), a swipe phase, a horizontal scroll reading,
/// or anything else the device reports (ignored).
#[derive(Clone, Copy, Debug, Eq, PartialEq, Structural)]
pub enum Event {
    GestureHold,
    GestureSwipe(GestureSwipeEvent),
    PointerScrollWheel { horiz: i64 },
    Other,
}

/// The classifier state a raw device event moves the machine to.
pub open spec fn spec_event_state(s: GestureState, e: Event) -> GestureState {
    match e {
        Event::GestureHold => GestureState::Idle,
        Event::GestureSwipe(se) => spec_handle_state(s, se),
        Event::PointerScrollWheel { .. } => s,
        Event::Other => s,
    }
}

/// The command a raw device event emits: the end of a swipe can emit a
/// swipe command, a scroll reading can emit a scroll command, and
/// everything else emits nothing.
pub open spec fn spec_event_emit(s: GestureState, e: Event) -> Option<InputCommand> {
    match e {
        Event::GestureHold => None,
        Event::GestureSwipe(se) => spec_handle_emit(s, se),
        Event::PointerScrollWheel { horiz } => spec_scroll_command(horiz as int),
        Event::Other => None,
    }
}

/// Dispatches one raw device event: hold aborts the gesture, swipe
/// phases drive the classifier, a scroll reading is decoded directly.
/// Returns the command to queue, if the event produced one.
pub fn process_event(event: &Event, gesture: &mut SwaypedGesture) -> (r: Option<InputCommand>)
    requires
        old(gesture).wf(),
    ensures
        final(gesture).wf(),
        final(gesture).state == spec_event_state(old(gesture).state, *event),
        r == spec_event_emit(old(gesture).state, *event),
{
    match event {
        Event::GestureHold => {
            gesture.reset();
            None
        },
        Event::GestureSwipe(se) => gesture.handle_event(se),
        Event::PointerScrollWheel { horiz } => pointer_handle_scroll_event(*horiz),
        Event::Other => None,
    }
}

/// The classifier state and the emitted commands, in order, after
/// dispatching a sequence of raw events in delivery order.
pub open spec fn spec_run_events(s: GestureState, events: Seq<Event>) -> (
    GestureState,
    Seq<InputCommand>,
)
    decreases events.len(),
{
    if events.len() == 0 {
        (s, Seq::empty())
    } else {
        let next = spec_event_state(s, events[0]);
        let emit = spec_event_emit(s, events[0]);
        let rest = spec_run_events(next, events.drop_first());
        (
            rest.0,
            match emit {
                Some(c) => seq![c] + rest.1,
                None => rest.1,
            },
        )
    }
}

/// One device wake: dispatches every drained raw event in delivery order
/// and returns the emitted commands, also in delivery order, for the
/// caller to queue.
pub fn process_events(events: &Vec<Event>, gesture: &mut SwaypedGesture) -> (cmds: Vec<
    InputCommand,
>)
    requires
        old(gesture).wf(),
    ensures
        final(gesture).wf(),
        final(gesture).state == spec_run_events(old(gesture).state, events@).0,
        cmds@ == spec_run_events(old(gesture).state, events@).1,
{
    let ghost s0 = gesture.state;
    let mut cmds: Vec<InputCommand> = Vec::new();
    let mut i: usize = 0;
    proof {
        assert(events@.skip(0) =~= events@);
        assert(Seq::<InputCommand>::empty() + spec_run_events(s0, events@).1 =~= spec_run_events(
            s0,
            events@,
        ).1);
    }
    while i < events.len()
        invariant
            0 <= i <= events@.len(),
            gesture.wf(),
            spec_run_events(s0, events@).0 == spec_run_events(
                gesture.state,
                events@.skip(i as int),
            ).0,
            spec_run_events(s0, events@).1 == cmds@ + spec_run_events(
                gesture.state,
                events@.skip(i as int),
            ).1,
        decreases events@.len() - i,
    {
        let emitted = process_event(&events[i], gesture);
        match emitted {
            Some(c) => cmds.push(c),
            None => {},
        }
        proof {
            assert(events@.skip(i as int)[0] == events@[i as int]);
            assert(events@.skip(i as int).drop_first() =~= events@.skip(i + 1 as int));
        }
        i = i + 1;
    }
    proof {
        assert(events@.skip(events@.len() as int) =~= Seq::<Event>::empty());
        assert(cmds@ =~= cmds@ + Seq::<InputCommand>::empty());
    }
    cmds
}

/// Capacity of the command queue. When this many commands are pending
/// the producer is refused until the router drains one: the system's
/// only backpressure mechanism.
pub const COMMAND_QUEUE_CAPACITY: usize = 8;

/// The bounded FIFO between event dispatch and the router. Commands are
/// queued at the back and routed from the front, so commands produced
/// within one device wake are routed strictly in delivery order.
#[derive(Debug)]
pub struct CommandQueue {
    pub items: Vec<InputCommand>,
}

impl CommandQueue {
    /// The queue never holds more than its capacity.
    pub open spec fn wf(self) -> bool {
        self.items@.len() <= COMMAND_QUEUE_CAPACITY
    }

    /// A fresh, empty queue.
    pub fn new() -> (q: Self)
        ensures
            q.items@ == Seq::<InputCommand>::empty(),
            q.wf(),
    {
        CommandQueue { items: Vec::new() }
    }

    /// How many commands are pending.
    pub fn len(&self) -> (r: usize)
        ensures
            r == self.items@.len(),
    {
        self.items.len()
    }

    /// Queues one command at the back — unless the queue is full: with
    /// the capacity reached the push is refused and the queue is left
    /// unchanged, and the producer must wait until the router pops a
    /// command, which makes the next push succeed again.
    pub fn try_push(&mut self, cmd: InputCommand) -> (r: bool)
        requires
            old(self).wf(),
        ensures
            final(self).wf(),
            r == (old(self).items@.len() < COMMAND_QUEUE_CAPACITY),
            r ==> final(self).items@ == old(self).items@.push(cmd),
            !r ==> final(self).items@ == old(self).items@,
    {
        if self.items.len() < COMMAND_QUEUE_CAPACITY {
            self.items.push(cmd);
            true
        } else {
            false
        }
    }

    /// Takes the oldest pending command, or nothing when the queue is
    /// empty.
    pub fn pop(&mut self) -> (r: Option<InputCommand>)
        requires
            old(self).wf(),
        ensures
            final(self).wf(),
            match r {
                Some(c) => old(self).items@.len() > 0 && c == old(self).items@[0]
                    && final(self).items@ == old(self).items@.drop_first(),
                None => old(self).items@.len() == 0 && final(self).items@ == old(self).items@,
            },
    {
        if self.items.len() == 0 {
            None
        } else {
            let ghost pre = self.items@;
            let c = self.items.remove(0);
            proof {
                assert(self.items@ =~= pre.drop_first());
            }
            Some(c)
        }
    }
}

} // verus!
