//! Session lifecycle: event-driven state transitions, the running flag, the
//! visibility resource, and terminal events.

use openxr_loop::presentation::XrVisibilityState;
use openxr_loop::session::{
    session_state_from_raw, EventAction, SessionEvent, SessionState, SessionStateMachine,
};

fn state_event(state: SessionState) -> SessionEvent {
    SessionEvent::StateChanged { state }
}

#[test]
fn initial_machine_is_idle_and_unset() {
    let m = SessionStateMachine::new();
    assert_eq!(m.state, SessionState::Unknown);
    assert!(!m.running);
    assert_eq!(m.visibility, None);
    assert!(!m.terminated);
}

#[test]
fn ready_begins_session_and_sets_running() {
    let mut m = SessionStateMachine::new();
    let action = m.handle_event(&state_event(SessionState::Ready));
    assert_eq!(action, EventAction::BeginSession);
    assert!(m.running);
    assert_eq!(m.state, SessionState::Ready);
}

#[test]
fn stopping_ends_session_and_clears_running() {
    let mut m = SessionStateMachine::new();
    m.handle_event(&state_event(SessionState::Ready));
    let action = m.handle_event(&state_event(SessionState::Stopping));
    assert_eq!(action, EventAction::EndSession);
    assert!(!m.running);
}

#[test]
fn stopping_without_running_session_ends_nothing() {
    let mut m = SessionStateMachine::new();
    let action = m.handle_event(&state_event(SessionState::Stopping));
    assert_eq!(action, EventAction::Ignore);
    assert!(!m.running);
}

#[test]
fn repeated_ready_begins_once() {
    let mut m = SessionStateMachine::new();
    assert_eq!(m.handle_event(&state_event(SessionState::Ready)), EventAction::BeginSession);
    assert_eq!(m.handle_event(&state_event(SessionState::Ready)), EventAction::Ignore);
    assert!(m.running);
}

#[test]
fn running_iff_last_ready_after_last_stopping() {
    // READY then STOPPING then READY again: running ends true.
    let mut m = SessionStateMachine::new();
    m.handle_event(&state_event(SessionState::Ready));
    m.handle_event(&state_event(SessionState::Stopping));
    assert!(!m.running);
    m.handle_event(&state_event(SessionState::Ready));
    assert!(m.running);
}

#[test]
fn exiting_terminates_regardless_of_state() {
    let mut m = SessionStateMachine::new();
    m.handle_event(&state_event(SessionState::Ready));
    let action = m.handle_event(&state_event(SessionState::Exiting));
    assert_eq!(action, EventAction::Terminate);
    assert!(m.terminated);
}

#[test]
fn loss_pending_terminates() {
    let mut m = SessionStateMachine::new();
    let action = m.handle_event(&state_event(SessionState::LossPending));
    assert_eq!(action, EventAction::Terminate);
    assert!(m.terminated);
}

#[test]
fn instance_loss_pending_terminates() {
    let mut m = SessionStateMachine::new();
    let action = m.handle_event(&SessionEvent::InstanceLossPending);
    assert_eq!(action, EventAction::Terminate);
    assert!(m.terminated);
}

#[test]
fn terminated_machine_ignores_further_events() {
    let mut m = SessionStateMachine::new();
    m.handle_event(&state_event(SessionState::Exiting));
    let action = m.handle_event(&state_event(SessionState::Ready));
    assert_eq!(action, EventAction::Ignore);
    assert!(!m.running);
    assert!(m.terminated);
}

#[test]
fn benign_events_are_ignored_never_fatal() {
    let mut m = SessionStateMachine::new();
    assert_eq!(m.handle_event(&SessionEvent::EventsLost { count: 3 }), EventAction::Ignore);
    assert_eq!(m.handle_event(&SessionEvent::PerfSettingsNotification), EventAction::Ignore);
    assert_eq!(m.handle_event(&SessionEvent::VisibilityMaskChanged), EventAction::Ignore);
    assert_eq!(m.handle_event(&SessionEvent::MainSessionVisibilityChanged), EventAction::Ignore);
    assert_eq!(m.handle_event(&SessionEvent::DisplayRefreshRateChanged), EventAction::Ignore);
    assert_eq!(m.handle_event(&SessionEvent::Unrecognized), EventAction::Ignore);
    assert!(!m.terminated);
}

#[test]
fn profile_change_requests_requery() {
    let mut m = SessionStateMachine::new();
    assert_eq!(
        m.handle_event(&SessionEvent::InteractionProfileChanged),
        EventAction::QueryInteractionProfiles
    );
}

#[test]
fn visibility_round_trip() {
    // The fixed runtime event sequence READY, SYNCHRONIZED, VISIBLE, FOCUSED,
    // STOPPING, EXITING must drive the visibility resource through
    // unset, Hidden, VisibleUnfocused, VisibleFocused, kept, terminated.
    let mut m = SessionStateMachine::new();
    assert_eq!(m.visibility, None);

    m.handle_event(&state_event(SessionState::Ready));
    assert_eq!(m.visibility, None);

    m.handle_event(&state_event(SessionState::Synchronized));
    assert_eq!(m.visibility, Some(XrVisibilityState::Hidden));

    m.handle_event(&state_event(SessionState::Visible));
    assert_eq!(m.visibility, Some(XrVisibilityState::VisibleUnfocused));

    m.handle_event(&state_event(SessionState::Focused));
    assert_eq!(m.visibility, Some(XrVisibilityState::VisibleFocused));

    m.handle_event(&state_event(SessionState::Stopping));
    assert_eq!(m.visibility, Some(XrVisibilityState::VisibleFocused));
    assert!(!m.running);

    m.handle_event(&state_event(SessionState::Exiting));
    assert!(m.terminated);
}

#[test]
fn session_state_decoding() {
    assert_eq!(session_state_from_raw(0), Some(SessionState::Unknown));
    assert_eq!(session_state_from_raw(1), Some(SessionState::Idle));
    assert_eq!(session_state_from_raw(2), Some(SessionState::Ready));
    assert_eq!(session_state_from_raw(3), Some(SessionState::Synchronized));
    assert_eq!(session_state_from_raw(4), Some(SessionState::Visible));
    assert_eq!(session_state_from_raw(5), Some(SessionState::Focused));
    assert_eq!(session_state_from_raw(6), Some(SessionState::Stopping));
    assert_eq!(session_state_from_raw(7), Some(SessionState::LossPending));
    assert_eq!(session_state_from_raw(8), Some(SessionState::Exiting));
    assert_eq!(session_state_from_raw(9), None);
    assert_eq!(session_state_from_raw(-1), None);
}
