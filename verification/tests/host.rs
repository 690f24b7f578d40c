use engine::handshake::{passcode_hash, ServerAction, ServerEvent};
use engine::host::{HostAction, HostEvent, HostSession};
use engine::EngineError;

/// A session that has accepted a peer and read the digest `h`, and its
/// last action.
fn session_after_digest(h: Vec<u8>) -> (HostSession, HostAction) {
    let (s, a) = HostSession::start();
    assert!(matches!(a, HostAction::Accept));
    let (s, a) = s.step(HostEvent::Accepted);
    assert!(matches!(a, HostAction::Check(ServerAction::Read(32))));
    s.step(HostEvent::Checked(ServerEvent::Received(h)))
}

/// Runs the session through the room lookup (finding `stored`) and the
/// reply, returning the reply byte and the action that follows it.
fn session_to_verdict(h: Vec<u8>, stored: &str) -> (HostSession, u8, HostAction) {
    let (s, a) = session_after_digest(h);
    assert!(matches!(a, HostAction::Check(ServerAction::LookUpRoom)));
    let (s, a) = s.step(HostEvent::Checked(ServerEvent::RoomFound(stored.to_string())));
    let byte = match a {
        HostAction::Check(ServerAction::SendReply(b)) => b,
        _ => panic!("expected a reply"),
    };
    let (s, a) = s.step(HostEvent::Checked(ServerEvent::ReplySent));
    (s, byte, a)
}

#[test]
fn the_right_digest_gets_the_room_marked_connected() {
    let (s, byte, a) = session_to_verdict(passcode_hash("open sesame"), "open sesame");
    assert_eq!(byte, 1);
    assert!(matches!(a, HostAction::MarkConnected));
    let (s, a) = s.step(HostEvent::Marked);
    assert!(matches!(a, HostAction::Stop(None)));
    assert!(matches!(s, HostSession::Done));
}

#[test]
fn a_wrong_digest_is_refused_and_nothing_is_marked() {
    let (s, byte, a) = session_to_verdict(passcode_hash("guess"), "open sesame");
    assert_eq!(byte, 0);
    assert!(matches!(a, HostAction::Stop(Some(EngineError::InvalidPasscode))));
    assert!(matches!(s, HostSession::Done));
}

#[test]
fn a_failed_accept_ends_the_session_quietly() {
    let (s, _) = HostSession::start();
    let (s, a) = s.step(HostEvent::AcceptFailed);
    assert!(matches!(a, HostAction::Stop(None)));
    assert!(matches!(s, HostSession::Done));
}

#[test]
fn a_missing_room_stops_the_session_with_its_error() {
    let (s, _) = session_after_digest(passcode_hash("open sesame"));
    let (s, a) = s.step(HostEvent::Checked(ServerEvent::RoomMissing));
    assert!(matches!(a, HostAction::Stop(Some(EngineError::RoomNotFound))));
    assert!(matches!(s, HostSession::Done));
}

#[test]
fn a_failed_read_stops_the_session_with_a_connection_error() {
    let (s, _) = HostSession::start();
    let (s, _) = s.step(HostEvent::Accepted);
    let (_, a) = s.step(HostEvent::Checked(ServerEvent::ReadFailed("eof".to_string())));
    match a {
        HostAction::Stop(Some(EngineError::ConnectionError(m))) => {
            assert_eq!(m, "failed to read passcode hash: eof")
        }
        _ => panic!("expected a connection error"),
    }
}

#[test]
fn a_failed_mark_stops_the_session_with_its_error() {
    let (s, _, _) = session_to_verdict(passcode_hash("pin"), "pin");
    let (s, a) = s.step(HostEvent::MarkFailed(EngineError::RoomNotFound));
    assert!(matches!(a, HostAction::Stop(Some(EngineError::RoomNotFound))));
    assert!(matches!(s, HostSession::Done));
}

#[test]
fn the_session_never_asks_to_accept_a_second_connection() {
    for stored in ["pin", "other"] {
        let (s, a) = HostSession::start();
        let mut actions = vec![a];
        let (s, a) = s.step(HostEvent::Accepted);
        actions.push(a);
        let (s, a) = s.step(HostEvent::Checked(ServerEvent::Received(passcode_hash("pin"))));
        actions.push(a);
        let (s, a) = s.step(HostEvent::Checked(ServerEvent::RoomFound(stored.to_string())));
        actions.push(a);
        let (mut s, a) = s.step(HostEvent::Checked(ServerEvent::ReplySent));
        let marking = matches!(a, HostAction::MarkConnected);
        actions.push(a);
        if marking {
            let (next, a) = s.step(HostEvent::Marked);
            s = next;
            actions.push(a);
        }
        assert!(matches!(s, HostSession::Done));
        let accepts = actions.iter().filter(|a| matches!(a, HostAction::Accept)).count();
        assert_eq!(accepts, 1);
    }
}
