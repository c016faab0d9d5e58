//! The window's event loop decisions: render on each redraw, stop for good
//! on a close request.
use vstd::prelude::*;

verus! {

/// The events of the window that the loop reacts to.
#[derive(Clone, Copy, Debug, PartialEq, Eq, Structural)]
pub enum LoopEvent {
    CloseRequested,
    /// Every redraw of this round of events has been handled.
    RedrawEventsCleared,
    Other,
}

/// What the loop does for one event.
#[derive(Clone, Copy, Debug, PartialEq, Eq, Structural)]
pub enum LoopAction {
    /// Wait for the next event.
    Wait,
    /// Draw and present one frame, then wait.
    Render,
    /// Leave the loop.
    Exit,
    /// The loop has been left: the event is not handled.
    Ignore,
}

/// Whether the loop has been left.
#[derive(Clone, Copy, Debug, PartialEq, Eq, Structural)]
pub struct LoopState {
    pub exited: bool,
}

pub open spec fn loop_transition(s: LoopState, ev: LoopEvent) -> (LoopState, LoopAction) {
    if s.exited {
        (s, LoopAction::Ignore)
    } else {
        match ev {
            LoopEvent::CloseRequested => (LoopState { exited: true }, LoopAction::Exit),
            LoopEvent::RedrawEventsCleared => (s, LoopAction::Render),
            LoopEvent::Other => (s, LoopAction::Wait),
        }
    }
}

/// Some event before position `i` is a close request.
pub open spec fn closed_before(events: Seq<LoopEvent>, i: int) -> bool {
    exists|j: int| 0 <= j < i && events[j] == LoopEvent::CloseRequested
}

/// The action taken for the event at position `i` of a run from the start.
pub open spec fn action_at(events: Seq<LoopEvent>, i: int) -> LoopAction {
    if closed_before(events, i) {
        LoopAction::Ignore
    } else {
        loop_transition(LoopState { exited: false }, events[i]).1
    }
}

/// The loop's reaction to one event.
pub fn handle_event(s: LoopState, ev: LoopEvent) -> (r: (LoopState, LoopAction))
    ensures
        r == loop_transition(s, ev),
{
    if s.exited {
        (s, LoopAction::Ignore)
    } else {
        match ev {
            LoopEvent::CloseRequested => (LoopState { exited: true }, LoopAction::Exit),
            LoopEvent::RedrawEventsCleared => (s, LoopAction::Render),
            LoopEvent::Other => (s, LoopAction::Wait),
        }
    }
}

/// The actions of a loop that starts running and receives `events` in order.
pub fn run_events(events: &Vec<LoopEvent>) -> (r: Vec<LoopAction>)
    ensures
        r@.len() == events@.len(),
        forall|i: int| 0 <= i < events@.len() ==> r@[i] == #[trigger] action_at(events@, i),
{
    let mut s = LoopState { exited: false };
    let mut out: Vec<LoopAction> = Vec::new();
    let mut i: usize = 0;
    while i < events.len()
        invariant
            0 <= i <= events@.len(),
            out@.len() == i,
            s.exited == closed_before(events@, i as int),
            forall|k: int| 0 <= k < i ==> out@[k] == #[trigger] action_at(events@, k),
        decreases events@.len() - i,
    {
        let (next, a) = handle_event(s, events[i]);
        assert(closed_before(events@, i as int + 1) == (closed_before(events@, i as int)
            || events@[i as int] == LoopEvent::CloseRequested)) by {
            if events@[i as int] == LoopEvent::CloseRequested {
                assert(closed_before(events@, i as int + 1));
            }
            if closed_before(events@, i as int + 1) && events@[i as int] != LoopEvent::CloseRequested {
                let j = choose|j: int| 0 <= j < i as int + 1 && events@[j] == LoopEvent::CloseRequested;
                assert(j < i);
            }
        }
        out.push(a);
        s = next;
        i = i + 1;
    }
    out
}

/// Once a close request has arrived, no later event leads to a render.
pub proof fn lemma_no_render_after_close(events: Seq<LoopEvent>, c: int, i: int)
    requires
        0 <= c < i < events.len(),
        events[c] == LoopEvent::CloseRequested,
    ensures
        action_at(events, i) == LoopAction::Ignore,
        action_at(events, i) != LoopAction::Render,
{
    assert(closed_before(events, i));
}

/// The first close request makes the loop exit.
pub proof fn lemma_close_exits(events: Seq<LoopEvent>, c: int)
    requires
        0 <= c < events.len(),
        events[c] == LoopEvent::CloseRequested,
        !closed_before(events, c),
    ensures
        action_at(events, c) == LoopAction::Exit,
{
}

} // verus!
