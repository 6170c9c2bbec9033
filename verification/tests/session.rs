use relay_hub::registry::SubscriberId;
use relay_hub::session::{advance, SessionAction, SessionEvent, SessionState};

const ID: SubscriberId = SubscriberId(7);
const OTHER: SubscriberId = SubscriberId(8);

#[test]
fn a_connection_runs_from_connecting_to_removed() {
    let (state, action) = advance(SessionState::Connecting, SessionEvent::Upgraded(ID));
    assert_eq!((state, action), (SessionState::Registered(ID), SessionAction::Relay(ID)));
    let (state, action) = advance(state, SessionEvent::PeerClosed);
    assert_eq!((state, action), (SessionState::Closing(ID), SessionAction::Remove(ID)));
    let (state, action) = advance(state, SessionEvent::Deregistered);
    assert_eq!((state, action), (SessionState::Removed, SessionAction::Idle));
}

#[test]
fn a_send_failure_closes_a_registered_connection() {
    let (state, action) = advance(SessionState::Registered(ID), SessionEvent::SendFailed);
    assert_eq!((state, action), (SessionState::Closing(ID), SessionAction::Remove(ID)));
}

#[test]
fn removal_is_asked_for_once() {
    let (state, _) = advance(SessionState::Registered(ID), SessionEvent::SendFailed);
    assert_eq!(advance(state, SessionEvent::PeerClosed), (state, SessionAction::Idle));
    assert_eq!(advance(state, SessionEvent::SendFailed), (state, SessionAction::Idle));
}

#[test]
fn removed_is_terminal() {
    for event in [
        SessionEvent::Upgraded(OTHER),
        SessionEvent::SendFailed,
        SessionEvent::PeerClosed,
        SessionEvent::Deregistered,
    ] {
        assert_eq!(
            advance(SessionState::Removed, event),
            (SessionState::Removed, SessionAction::Idle)
        );
    }
}

#[test]
fn events_that_do_not_fit_change_nothing() {
    let connecting = SessionState::Connecting;
    assert_eq!(advance(connecting, SessionEvent::SendFailed), (connecting, SessionAction::Idle));
    assert_eq!(advance(connecting, SessionEvent::PeerClosed), (connecting, SessionAction::Idle));
    assert_eq!(advance(connecting, SessionEvent::Deregistered), (connecting, SessionAction::Idle));
    let registered = SessionState::Registered(ID);
    assert_eq!(
        advance(registered, SessionEvent::Upgraded(OTHER)),
        (registered, SessionAction::Idle)
    );
    assert_eq!(advance(registered, SessionEvent::Deregistered), (registered, SessionAction::Idle));
    let closing = SessionState::Closing(ID);
    assert_eq!(advance(closing, SessionEvent::Upgraded(OTHER)), (closing, SessionAction::Idle));
}
