//! The session lifecycle state machine. Runtime events are processed
//! synchronously at the top of every frame-loop iteration, before any
//! rendering decision; the machine records the reported state, tracks the
//! `running` flag that gates all frame work, and tells the embedding loop
//! which session call to make.

use vstd::prelude::*;

use crate::presentation::XrVisibilityState;
use crate::tracking::ReferenceSpaceChange;

verus! {

/// Session lifecycle states as the runtime reports them.
#[derive(Clone, Copy, Debug, PartialEq, Eq, Structural)]
pub enum SessionState {
    Unknown,
    Idle,
    Ready,
    Synchronized,
    Visible,
    Focused,
    Stopping,
    Exiting,
    LossPending,
}

/// Events the runtime's event pump can deliver. Payloads the loop does not
/// act on are left out; the variants still exist so that every event has an
/// explicit, never-fatal disposition.
#[derive(Clone, Copy, Debug, PartialEq, Eq, Structural)]
pub enum SessionEvent {
    /// The runtime dropped `count` events; logged, never fatal.
    EventsLost { count: u32 },
    /// The whole runtime instance is shutting down.
    InstanceLossPending,
    /// The session moved to a new lifecycle state.
    StateChanged { state: SessionState },
    /// The reference space will be redefined.
    ReferenceSpaceChangePending { change: ReferenceSpaceChange },
    /// A performance level notification; logged.
    PerfSettingsNotification,
    VisibilityMaskChanged,
    /// The active interaction profile changed; the loop re-queries it.
    InteractionProfileChanged,
    MainSessionVisibilityChanged,
    DisplayRefreshRateChanged,
    /// Any event variant this loop does not know; logged and ignored.
    Unrecognized,
}

/// The session call the embedding loop must make in response to one event.
#[derive(Clone, Copy, Debug, PartialEq, Eq, Structural)]
pub enum EventAction {
    /// Nothing to call; the event was recorded or deliberately ignored.
    Ignore,
    /// Call the runtime's begin-session entry point.
    BeginSession,
    /// Call the runtime's end-session entry point.
    EndSession,
    /// Leave the frame loop for good.
    Terminate,
    /// Re-query the current interaction profiles and republish them.
    QueryInteractionProfiles,
}

/// The machine driven by runtime events. `running` gates all frame work: it
/// is set on READY and cleared on STOPPING. `terminated` latches once a
/// terminal event arrives; afterwards no further event is processed, which
/// models the loop having exited.
#[derive(Clone, Copy, Debug)]
pub struct SessionStateMachine {
    /// The lifecycle state most recently reported by the runtime.
    pub state: SessionState,
    /// Whether frame wait/acquire/submit work may happen.
    pub running: bool,
    /// The visibility resource published to the engine; `None` until the
    /// runtime first reports a synchronized state.
    pub visibility: Option<XrVisibilityState>,
    /// Whether a terminal event ended the loop.
    pub terminated: bool,
}

/// The machine before any event arrived.
pub open spec fn spec_initial_machine() -> SessionStateMachine {
    SessionStateMachine {
        state: SessionState::Unknown,
        running: false,
        visibility: None,
        terminated: false,
    }
}

/// Events that end the frame loop regardless of prior state.
pub open spec fn spec_is_terminal_event(e: SessionEvent) -> bool {
    ||| e == SessionEvent::InstanceLossPending
    ||| e == (SessionEvent::StateChanged { state: SessionState::Exiting })
    ||| e == (SessionEvent::StateChanged { state: SessionState::LossPending })
}

/// The event that makes the session begin running.
pub open spec fn spec_is_ready_event(e: SessionEvent) -> bool {
    e == (SessionEvent::StateChanged { state: SessionState::Ready })
}

/// The event that stops the session from running.
pub open spec fn spec_is_stopping_event(e: SessionEvent) -> bool {
    e == (SessionEvent::StateChanged { state: SessionState::Stopping })
}

/// One transition of the machine. The runtime is authoritative for the
/// lifecycle state, so every reported state is recorded; `running` changes
/// only on READY and STOPPING; visibility follows the synchronized, visible
/// and focused reports and is otherwise kept; terminal events latch
/// `terminated`, and a terminated machine ignores everything.
pub open spec fn spec_step(m: SessionStateMachine, e: SessionEvent) -> SessionStateMachine {
    if m.terminated {
        m
    } else {
        match e {
            SessionEvent::InstanceLossPending => SessionStateMachine { terminated: true, ..m },
            SessionEvent::StateChanged { state } => match state {
                SessionState::Ready => SessionStateMachine { state, running: true, ..m },
                SessionState::Synchronized => SessionStateMachine {
                    state,
                    visibility: Some(XrVisibilityState::Hidden),
                    ..m
                },
                SessionState::Visible => SessionStateMachine {
                    state,
                    visibility: Some(XrVisibilityState::VisibleUnfocused),
                    ..m
                },
                SessionState::Focused => SessionStateMachine {
                    state,
                    visibility: Some(XrVisibilityState::VisibleFocused),
                    ..m
                },
                SessionState::Stopping => SessionStateMachine { state, running: false, ..m },
                SessionState::Exiting | SessionState::LossPending => SessionStateMachine {
                    state,
                    terminated: true,
                    ..m
                },
                _ => SessionStateMachine { state, ..m },
            },
            _ => m,
        }
    }
}

/// The session call owed for one event: begin on the edge into running, end
/// on the edge out of it, terminate on terminal events, a profile re-query
/// when the runtime says the profile changed, and nothing otherwise.
pub open spec fn spec_action(m: SessionStateMachine, e: SessionEvent) -> EventAction {
    if m.terminated {
        EventAction::Ignore
    } else {
        match e {
            SessionEvent::InstanceLossPending => EventAction::Terminate,
            SessionEvent::StateChanged { state } => match state {
                SessionState::Ready => if !m.running {
                    EventAction::BeginSession
                } else {
                    EventAction::Ignore
                },
                SessionState::Stopping => if m.running {
                    EventAction::EndSession
                } else {
                    EventAction::Ignore
                },
                SessionState::Exiting | SessionState::LossPending => EventAction::Terminate,
                _ => EventAction::Ignore,
            },
            SessionEvent::InteractionProfileChanged => EventAction::QueryInteractionProfiles,
            _ => EventAction::Ignore,
        }
    }
}

impl SessionStateMachine {
    /// A machine in the initial, not-running, unset-visibility state.
    pub fn new() -> (m: SessionStateMachine)
        ensures
            m == spec_initial_machine(),
    {
        SessionStateMachine {
            state: SessionState::Unknown,
            running: false,
            visibility: None,
            terminated: false,
        }
    }

    /// Processes one runtime event and returns the session call the loop owes
    /// for it. Unknown and payload-only events are never fatal.
    pub fn handle_event(&mut self, e: &SessionEvent) -> (action: EventAction)
        ensures
            *final(self) == spec_step(*old(self), *e),
            action == spec_action(*old(self), *e),
    {
        if self.terminated {
            return EventAction::Ignore;
        }
        match *e {
            SessionEvent::InstanceLossPending => {
                self.terminated = true;
                EventAction::Terminate
            },
            SessionEvent::StateChanged { state } => {
                match state {
                    SessionState::Ready => {
                        self.state = state;
                        let was_running = self.running;
                        self.running = true;
                        if !was_running {
                            EventAction::BeginSession
                        } else {
                            EventAction::Ignore
                        }
                    },
                    SessionState::Synchronized => {
                        self.state = state;
                        self.visibility = Some(XrVisibilityState::Hidden);
                        EventAction::Ignore
                    },
                    SessionState::Visible => {
                        self.state = state;
                        self.visibility = Some(XrVisibilityState::VisibleUnfocused);
                        EventAction::Ignore
                    },
                    SessionState::Focused => {
                        self.state = state;
                        self.visibility = Some(XrVisibilityState::VisibleFocused);
                        EventAction::Ignore
                    },
                    SessionState::Stopping => {
                        self.state = state;
                        let was_running = self.running;
                        self.running = false;
                        if was_running {
                            EventAction::EndSession
                        } else {
                            EventAction::Ignore
                        }
                    },
                    SessionState::Exiting | SessionState::LossPending => {
                        self.state = state;
                        self.terminated = true;
                        EventAction::Terminate
                    },
                    _ => {
                        self.state = state;
                        EventAction::Ignore
                    },
                }
            },
            SessionEvent::InteractionProfileChanged => EventAction::QueryInteractionProfiles,
            _ => EventAction::Ignore,
        }
    }
}

/// The machine after a whole sequence of events, oldest first.
pub open spec fn spec_run(events: Seq<SessionEvent>) -> SessionStateMachine
    decreases events.len(),
{
    if events.len() == 0 {
        spec_initial_machine()
    } else {
        spec_step(spec_run(events.drop_last()), events.last())
    }
}

/// Whether some event of the sequence is terminal.
pub open spec fn spec_has_terminal_event(events: Seq<SessionEvent>) -> bool {
    exists|i: int| 0 <= i < events.len() && spec_is_terminal_event(#[trigger] events[i])
}

/// Whether the most recent READY event comes after the most recent STOPPING
/// event: some READY is followed by no STOPPING.
pub open spec fn spec_ready_pending(events: Seq<SessionEvent>) -> bool {
    exists|i: int|
        0 <= i < events.len() && spec_is_ready_event(#[trigger] events[i]) && (forall|j: int|
            i < j < events.len() ==> !spec_is_stopping_event(#[trigger] events[j]))
}

/// The index of the first terminal event, or the length when there is none.
pub open spec fn spec_first_terminal_index(events: Seq<SessionEvent>) -> int
    decreases events.len(),
{
    if events.len() == 0 {
        0
    } else if spec_has_terminal_event(events.drop_last()) {
        spec_first_terminal_index(events.drop_last())
    } else if spec_is_terminal_event(events.last()) {
        events.len() - 1
    } else {
        events.len() as int
    }
}

/// The lifecycle state for each numeric code of the runtime's protocol;
/// codes this loop does not know decode to `None` and are logged, never
/// fatal.
pub open spec fn spec_session_state_from_raw(raw: i32) -> Option<SessionState> {
    if raw == 0 {
        Some(SessionState::Unknown)
    } else if raw == 1 {
        Some(SessionState::Idle)
    } else if raw == 2 {
        Some(SessionState::Ready)
    } else if raw == 3 {
        Some(SessionState::Synchronized)
    } else if raw == 4 {
        Some(SessionState::Visible)
    } else if raw == 5 {
        Some(SessionState::Focused)
    } else if raw == 6 {
        Some(SessionState::Stopping)
    } else if raw == 7 {
        Some(SessionState::LossPending)
    } else if raw == 8 {
        Some(SessionState::Exiting)
    } else {
        None
    }
}

/// Decodes the runtime's numeric session state; see
/// `spec_session_state_from_raw`.
pub fn session_state_from_raw(raw: i32) -> (s: Option<SessionState>)
    ensures
        s == spec_session_state_from_raw(raw),
{
    if raw == 0 {
        Some(SessionState::Unknown)
    } else if raw == 1 {
        Some(SessionState::Idle)
    } else if raw == 2 {
        Some(SessionState::Ready)
    } else if raw == 3 {
        Some(SessionState::Synchronized)
    } else if raw == 4 {
        Some(SessionState::Visible)
    } else if raw == 5 {
        Some(SessionState::Focused)
    } else if raw == 6 {
        Some(SessionState::Stopping)
    } else if raw == 7 {
        Some(SessionState::LossPending)
    } else if raw == 8 {
        Some(SessionState::Exiting)
    } else {
        None
    }
}

/// A terminated machine processes nothing further.
pub proof fn lemma_step_after_termination(m: SessionStateMachine, e: SessionEvent)
    ensures
        m.terminated ==> spec_step(m, e) == m,
{
}

/// Terminal events always end the loop, regardless of prior state, and
/// nothing else does: the machine is terminated exactly when some terminal
/// event arrived.
pub proof fn lemma_terminal_event_ends_loop(events: Seq<SessionEvent>)
    ensures
        spec_run(events).terminated <==> spec_has_terminal_event(events),
    decreases events.len(),
{
    if events.len() == 0 {
    } else {
        let prefix = events.drop_last();
        lemma_terminal_event_ends_loop(prefix);
        if spec_run(prefix).terminated {
            let i = choose|i: int| 0 <= i < prefix.len() && spec_is_terminal_event(#[trigger] prefix[i]);
            assert(spec_is_terminal_event(events[i]));
        } else if spec_is_terminal_event(events.last()) {
            assert(spec_is_terminal_event(events[events.len() - 1]));
        } else {
            if spec_has_terminal_event(events) {
                let i = choose|i: int| 0 <= i < events.len() && spec_is_terminal_event(
                    #[trigger] events[i],
                );
                assert(i < events.len() - 1);
                assert(spec_is_terminal_event(prefix[i]));
                assert(false);
            }
        }
    }
}

/// For runs in which no terminal event occurs, the `running` flag is true
/// exactly when the most recent READY event occurred after the most recent
/// STOPPING event.
pub proof fn lemma_running_iff_ready_after_stopping(events: Seq<SessionEvent>)
    requires
        !spec_has_terminal_event(events),
    ensures
        spec_run(events).running <==> spec_ready_pending(events),
    decreases events.len(),
{
    if events.len() == 0 {
    } else {
        let prefix = events.drop_last();
        let last = events.last();
        let n = events.len() - 1;
        assert(forall|i: int| 0 <= i < prefix.len() ==> prefix[i] == events[i]);
        assert(!spec_has_terminal_event(prefix));
        lemma_running_iff_ready_after_stopping(prefix);
        lemma_terminal_event_ends_loop(prefix);
        assert(!spec_run(prefix).terminated);
        assert(!spec_is_terminal_event(last));
        if spec_is_ready_event(last) {
            assert(spec_run(events).running);
            assert(spec_is_ready_event(events[n]) && (forall|j: int|
                n < j < events.len() ==> !spec_is_stopping_event(#[trigger] events[j])));
        } else if spec_is_stopping_event(last) {
            assert(!spec_run(events).running);
            if spec_ready_pending(events) {
                let i = choose|i: int|
                    0 <= i < events.len() && spec_is_ready_event(#[trigger] events[i]) && (forall|
                        j: int,
                    |
                        i < j < events.len() ==> !spec_is_stopping_event(#[trigger] events[j]));
                assert(i < n);
                assert(!spec_is_stopping_event(events[n]));
                assert(false);
            }
        } else {
            assert(spec_run(events).running == spec_run(prefix).running);
            if spec_ready_pending(prefix) {
                let i = choose|i: int|
                    0 <= i < prefix.len() && spec_is_ready_event(#[trigger] prefix[i]) && (forall|
                        j: int,
                    |
                        i < j < prefix.len() ==> !spec_is_stopping_event(#[trigger] prefix[j]));
                assert(spec_is_ready_event(events[i]));
                assert(forall|j: int|
                    i < j < events.len() ==> !spec_is_stopping_event(#[trigger] events[j]));
                assert(spec_ready_pending(events));
            }
            if spec_ready_pending(events) {
                let i = choose|i: int|
                    0 <= i < events.len() && spec_is_ready_event(#[trigger] events[i]) && (forall|
                        j: int,
                    |
                        i < j < events.len() ==> !spec_is_stopping_event(#[trigger] events[j]));
                assert(i < n);
                assert(spec_is_ready_event(prefix[i]));
                assert(forall|j: int|
                    i < j < prefix.len() ==> !spec_is_stopping_event(#[trigger] prefix[j]));
                assert(spec_ready_pending(prefix));
            }
        }
    }
}

/// Basic facts about the first terminal index: it lies in range, everything
/// before it is non-terminal, and it points at a terminal event when one
/// exists.
pub proof fn lemma_first_terminal_index_props(events: Seq<SessionEvent>)
    ensures
        0 <= spec_first_terminal_index(events) <= events.len(),
        forall|i: int|
            0 <= i < spec_first_terminal_index(events) ==> !spec_is_terminal_event(
                #[trigger] events[i],
            ),
        spec_has_terminal_event(events) ==> spec_first_terminal_index(events) < events.len()
            && spec_is_terminal_event(events[spec_first_terminal_index(events)]),
        !spec_has_terminal_event(events) ==> spec_first_terminal_index(events) == events.len(),
    decreases events.len(),
{
    if events.len() == 0 {
    } else {
        let prefix = events.drop_last();
        lemma_first_terminal_index_props(prefix);
        assert(forall|i: int| 0 <= i < prefix.len() ==> prefix[i] == events[i]);
        if spec_has_terminal_event(prefix) {
            let k = choose|k: int| 0 <= k < prefix.len() && spec_is_terminal_event(
                #[trigger] prefix[k],
            );
            assert(spec_is_terminal_event(events[k]));
        } else if spec_is_terminal_event(events.last()) {
            assert(spec_is_terminal_event(events[events.len() - 1]));
        } else {
            if spec_has_terminal_event(events) {
                let k = choose|k: int| 0 <= k < events.len() && spec_is_terminal_event(
                    #[trigger] events[k],
                );
                assert(k == events.len() - 1 || spec_is_terminal_event(prefix[k]));
                assert(false);
            }
        }
    }
}

/// Events at or after the first terminal event do not affect the `running`
/// flag: the run of the whole sequence agrees with the run of the prefix
/// before the first terminal event.
pub proof fn lemma_running_stops_at_terminal(events: Seq<SessionEvent>)
    ensures
        spec_run(events).running == spec_run(
            events.take(spec_first_terminal_index(events)),
        ).running,
    decreases events.len(),
{
    if events.len() == 0 {
        assert(events.take(0) =~= events);
    } else {
        let prefix = events.drop_last();
        let fti = spec_first_terminal_index(events);
        lemma_first_terminal_index_props(events);
        if spec_has_terminal_event(prefix) {
            lemma_terminal_event_ends_loop(prefix);
            assert(spec_run(events) == spec_run(prefix));
            lemma_running_stops_at_terminal(prefix);
            lemma_first_terminal_index_props(prefix);
            assert(events.take(fti) =~= prefix.take(fti));
        } else if spec_is_terminal_event(events.last()) {
            assert(fti == events.len() - 1);
            assert(events.take(fti) =~= prefix);
            assert(spec_run(events).running == spec_run(prefix).running);
        } else {
            assert(fti == events.len());
            assert(events.take(fti) =~= events);
        }
    }
}

/// The full characterization of the frame loop's gating flags: `running` is
/// true exactly when, among the events processed before the loop ended, the
/// most recent READY came after the most recent STOPPING; and the loop ends
/// exactly when a terminal event arrives.
pub proof fn lemma_running_characterization(events: Seq<SessionEvent>)
    ensures
        spec_run(events).running <==> spec_ready_pending(
            events.take(spec_first_terminal_index(events)),
        ),
        spec_run(events).terminated <==> spec_has_terminal_event(events),
{
    lemma_terminal_event_ends_loop(events);
    lemma_running_stops_at_terminal(events);
    lemma_first_terminal_index_props(events);
    let active = events.take(spec_first_terminal_index(events));
    assert(!spec_has_terminal_event(active)) by {
        if spec_has_terminal_event(active) {
            let i = choose|i: int| 0 <= i < active.len() && spec_is_terminal_event(
                #[trigger] active[i],
            );
            assert(!spec_is_terminal_event(events[i]));
            assert(false);
        }
    }
    lemma_running_iff_ready_after_stopping(active);
}

} // verus!
