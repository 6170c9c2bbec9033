//! The life of one subscriber connection: it connects, is registered, and leaves
//! for good when its transport fails or its peer closes.

use crate::registry::SubscriberId;
use vstd::prelude::*;

verus! {

/// Where a subscriber connection stands.
#[derive(Clone, Copy, Debug, PartialEq, Eq)]
pub enum SessionState {
    /// The transport is being set up; the subscriber is not registered yet.
    Connecting,
    /// The subscriber is registered and receives broadcasts.
    Registered(SubscriberId),
    /// The transport is gone; the subscriber is still to be taken off the registry.
    Closing(SubscriberId),
    /// The subscriber is off the registry. Nothing follows.
    Removed,
}

/// What happened on a subscriber connection.
#[derive(Clone, Copy, Debug, PartialEq, Eq)]
pub enum SessionEvent {
    /// The transport is up and the subscriber was registered under this identifier.
    Upgraded(SubscriberId),
    /// A frame could not be sent on the transport.
    SendFailed,
    /// The peer closed the transport, or reading from it failed.
    PeerClosed,
    /// The subscriber was taken off the registry.
    Deregistered,
}

/// What the host of a connection has to do next.
#[derive(Clone, Copy, Debug, PartialEq, Eq)]
pub enum SessionAction {
    /// Nothing.
    Idle,
    /// Start relaying the subscriber's queue onto the transport.
    Relay(SubscriberId),
    /// Take the subscriber off the registry.
    Remove(SubscriberId),
}

/// The state that follows `state` on `event`. An event that does not fit the state
/// changes nothing.
pub open spec fn next_state(state: SessionState, event: SessionEvent) -> SessionState {
    match (state, event) {
        (SessionState::Connecting, SessionEvent::Upgraded(id)) => SessionState::Registered(id),
        (SessionState::Registered(id), SessionEvent::SendFailed) => SessionState::Closing(id),
        (SessionState::Registered(id), SessionEvent::PeerClosed) => SessionState::Closing(id),
        (SessionState::Closing(_), SessionEvent::Deregistered) => SessionState::Removed,
        _ => state,
    }
}

/// What is to be done when `event` arrives in `state`.
pub open spec fn next_action(state: SessionState, event: SessionEvent) -> SessionAction {
    match (state, event) {
        (SessionState::Connecting, SessionEvent::Upgraded(id)) => SessionAction::Relay(id),
        (SessionState::Registered(id), SessionEvent::SendFailed) => SessionAction::Remove(id),
        (SessionState::Registered(id), SessionEvent::PeerClosed) => SessionAction::Remove(id),
        _ => SessionAction::Idle,
    }
}

/// How far a connection has come: a state never goes back to an earlier rank.
pub open spec fn rank(state: SessionState) -> nat {
    match state {
        SessionState::Connecting => 0,
        SessionState::Registered(_) => 1,
        SessionState::Closing(_) => 2,
        SessionState::Removed => 3,
    }
}

/// Takes one step of a connection: the state that follows, and what to do.
pub fn advance(state: SessionState, event: SessionEvent) -> (step: (SessionState, SessionAction))
    ensures
        step.0 == next_state(state, event),
        step.1 == next_action(state, event),
{
    match state {
        SessionState::Connecting => match event {
            SessionEvent::Upgraded(id) => (SessionState::Registered(id), SessionAction::Relay(id)),
            _ => (state, SessionAction::Idle),
        },
        SessionState::Registered(id) => match event {
            SessionEvent::SendFailed => (SessionState::Closing(id), SessionAction::Remove(id)),
            SessionEvent::PeerClosed => (SessionState::Closing(id), SessionAction::Remove(id)),
            _ => (state, SessionAction::Idle),
        },
        SessionState::Closing(_) => match event {
            SessionEvent::Deregistered => (SessionState::Removed, SessionAction::Idle),
            _ => (state, SessionAction::Idle),
        },
        SessionState::Removed => (state, SessionAction::Idle),
    }
}

/// A connection only moves forward, one state at a time; once removed it stays
/// removed, and a subscriber that left is never registered again on the same
/// connection. Removal is asked for exactly on the step from registered to closing,
/// and for the identifier that was registered.
pub proof fn lemma_session_moves_forward(state: SessionState, event: SessionEvent)
    ensures
        rank(state) <= rank(next_state(state, event)) <= rank(state) + 1,
        state is Removed ==> next_state(state, event) is Removed,
        rank(state) >= 2 ==> !(next_state(state, event) is Registered),
        next_action(state, event) matches SessionAction::Remove(id) <==> state
            is Registered && next_state(state, event) is Closing,
        next_action(state, event) matches SessionAction::Remove(id) ==> state
            == SessionState::Registered(id) && next_state(state, event) == SessionState::Closing(
            id,
        ),
{
}

} // verus!
