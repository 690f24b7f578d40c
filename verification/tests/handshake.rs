use engine::crypto::sha256_hex;
use engine::handshake::{
    bytes_equal, decode_be_u32, digest_matches, passcode_hash, reply, verdict, ClientAction,
    ClientEvent, DigestCheck, JoinExchange, PasscodeExchange, ServerAction, ServerEvent,
};
use engine::{EngineError, JoinRoomResponseBody};

fn host_after_digest(digest: Vec<u8>) -> DigestCheck {
    let (s, a) = DigestCheck::start();
    assert!(matches!(a, ServerAction::Read(32)));
    let (s, a) = s.step(ServerEvent::Received(digest));
    assert!(matches!(a, ServerAction::LookUpRoom));
    s
}

#[test]
fn passcode_digest_is_sha256_of_its_bytes() {
    let d = passcode_hash("abc");
    assert_eq!(d.len(), 32);
    assert_eq!(engine::text::hex_encode(&d), sha256_hex(b"abc"));
}

#[test]
fn host_accepts_the_digest_of_the_room_passcode() {
    let s = host_after_digest(passcode_hash("open sesame"));
    let (s, a) = s.step(ServerEvent::RoomFound("open sesame".to_string()));
    assert!(matches!(a, ServerAction::SendReply(1)));
    let (s, a) = s.step(ServerEvent::ReplySent);
    assert!(matches!(a, ServerAction::Finish(Ok(true))));
    assert!(matches!(s, DigestCheck::Done));
}

#[test]
fn host_refuses_another_digest_after_answering_zero() {
    let s = host_after_digest(passcode_hash("guess"));
    let (s, a) = s.step(ServerEvent::RoomFound("open sesame".to_string()));
    assert!(matches!(a, ServerAction::SendReply(0)));
    let (_, a) = s.step(ServerEvent::ReplySent);
    assert!(matches!(a, ServerAction::Finish(Err(EngineError::InvalidPasscode))));
}

#[test]
fn host_reports_a_failed_read_of_the_digest() {
    let (s, _) = DigestCheck::start();
    let (s, a) = s.step(ServerEvent::ReadFailed("early eof".to_string()));
    match a {
        ServerAction::Finish(Err(EngineError::ConnectionError(m))) => {
            assert_eq!(m, "failed to read passcode hash: early eof")
        }
        _ => panic!("unexpected action"),
    }
    assert!(matches!(s, DigestCheck::Done));
}

#[test]
fn host_reports_a_missing_room_and_a_failed_lookup() {
    let s = host_after_digest(passcode_hash("x"));
    let (_, a) = s.step(ServerEvent::RoomMissing);
    assert!(matches!(a, ServerAction::Finish(Err(EngineError::RoomNotFound))));
    let s = host_after_digest(passcode_hash("x"));
    let (_, a) = s.step(ServerEvent::LookupFailed(EngineError::PortNotSet));
    assert!(matches!(a, ServerAction::Finish(Err(EngineError::PortNotSet))));
}

#[test]
fn host_reports_a_failed_answer() {
    let s = host_after_digest(passcode_hash("x"));
    let (s, _) = s.step(ServerEvent::RoomFound("x".to_string()));
    let (_, a) = s.step(ServerEvent::WriteFailed("broken pipe".to_string()));
    match a {
        ServerAction::Finish(Err(EngineError::ConnectionError(m))) => {
            assert_eq!(m, "failed to send auth result: broken pipe")
        }
        _ => panic!("unexpected action"),
    }
    let s = host_after_digest(passcode_hash("x"));
    let (s, _) = s.step(ServerEvent::RoomFound("y".to_string()));
    let (_, a) = s.step(ServerEvent::FlushFailed("reset".to_string()));
    match a {
        ServerAction::Finish(Err(EngineError::ConnectionError(m))) => {
            assert_eq!(m, "failed to flush stream: reset")
        }
        _ => panic!("unexpected action"),
    }
}

#[test]
fn small_helpers_compute_what_they_say() {
    assert!(bytes_equal(&[1, 2, 3], &[1, 2, 3]));
    assert!(!bytes_equal(&[1, 2, 3], &[1, 2]));
    assert!(!bytes_equal(&[1, 2, 3], &[1, 2, 4]));
    assert!(digest_matches(&passcode_hash("k"), "k"));
    assert!(!digest_matches(&passcode_hash("k"), "K"));
    assert_eq!(reply(true), 1);
    assert_eq!(reply(false), 0);
    assert!(matches!(verdict(true), Ok(true)));
    assert!(matches!(verdict(false), Err(EngineError::InvalidPasscode)));
    assert_eq!(decode_be_u32(&[0, 0, 4, 0]), 1024);
    assert_eq!(decode_be_u32(&[0x12, 0x34, 0x56, 0x78]), 0x1234_5678);
    assert_eq!(decode_be_u32(&[0xff, 0xff, 0xff, 0xff]), u32::MAX);
}

fn tls_host_reading_length() -> PasscodeExchange {
    let (s, a) = PasscodeExchange::start();
    assert!(matches!(a, ServerAction::Handshake));
    let (s, a) = s.step(ServerEvent::HandshakeDone);
    assert!(matches!(a, ServerAction::Read(4)));
    s
}

fn tls_run(stored: &str, sent: &[u8]) -> ServerAction {
    let s = tls_host_reading_length();
    let len = (sent.len() as u32).to_be_bytes().to_vec();
    let (s, a) = s.step(ServerEvent::Received(len));
    match a {
        ServerAction::Read(n) => assert_eq!(n, sent.len()),
        _ => return a,
    }
    let (s, a) = s.step(ServerEvent::Received(sent.to_vec()));
    if !matches!(a, ServerAction::LookUpRoom) {
        return a;
    }
    let (s, a) = s.step(ServerEvent::RoomFound(stored.to_string()));
    let byte = match a {
        ServerAction::SendReply(b) => b,
        _ => panic!("expected a reply"),
    };
    let (_, a) = s.step(ServerEvent::ReplySent);
    match (&a, byte) {
        (ServerAction::Finish(Ok(true)), 1) => {}
        (ServerAction::Finish(Err(EngineError::InvalidPasscode)), 0) => {}
        _ => panic!("answer and result disagree"),
    }
    a
}

#[test]
fn tls_host_accepts_the_stored_passcode() {
    assert!(matches!(tls_run("correct horse", b"correct horse"), ServerAction::Finish(Ok(true))));
    assert!(matches!(tls_run("пароль", "пароль".as_bytes()), ServerAction::Finish(Ok(true))));
    assert!(matches!(tls_run("", b""), ServerAction::Finish(Ok(true))));
}

#[test]
fn tls_host_refuses_another_passcode() {
    assert!(matches!(
        tls_run("correct horse", b"Correct horse"),
        ServerAction::Finish(Err(EngineError::InvalidPasscode))
    ));
}

#[test]
fn tls_host_reads_up_to_1024_bytes_and_no_more() {
    let exactly = "a".repeat(1024);
    assert!(matches!(tls_run(&exactly, exactly.as_bytes()), ServerAction::Finish(Ok(true))));
    let s = tls_host_reading_length();
    let (s, a) = s.step(ServerEvent::Received(vec![0, 0, 4, 1]));
    match a {
        ServerAction::Finish(Err(EngineError::TlsHandshakeError(m))) => {
            assert_eq!(m, "passcode message too large")
        }
        _ => panic!("unexpected action"),
    }
    assert!(matches!(s, PasscodeExchange::Done));
}

#[test]
fn tls_host_refuses_bytes_that_are_not_utf8() {
    match tls_run("x", &[0xff, 0xfe]) {
        ServerAction::Finish(Err(EngineError::TlsHandshakeError(m))) => {
            assert_eq!(m, "passcode was not valid UTF-8")
        }
        _ => panic!("unexpected action"),
    }
}

#[test]
fn tls_host_reports_each_failure() {
    let (s, _) = PasscodeExchange::start();
    let (_, a) = s.step(ServerEvent::HandshakeFailed(EngineError::TlsHandshakeError(
        "bad certificate".to_string(),
    )));
    assert!(matches!(a, ServerAction::Finish(Err(EngineError::TlsHandshakeError(m))) if m == "bad certificate"));

    let s = tls_host_reading_length();
    let (_, a) = s.step(ServerEvent::ReadFailed("eof".to_string()));
    assert!(matches!(a, ServerAction::Finish(Err(EngineError::TlsHandshakeError(m))) if m == "failed to read passcode length: eof"));

    let s = tls_host_reading_length();
    let (s, _) = s.step(ServerEvent::Received(vec![0, 0, 0, 3]));
    let (_, a) = s.step(ServerEvent::ReadFailed("eof".to_string()));
    assert!(matches!(a, ServerAction::Finish(Err(EngineError::TlsHandshakeError(m))) if m == "failed to read passcode: eof"));

    let s = tls_host_reading_length();
    let (s, _) = s.step(ServerEvent::Received(vec![0, 0, 0, 3]));
    let (s, _) = s.step(ServerEvent::Received(b"abc".to_vec()));
    let (_, a) = s.step(ServerEvent::RoomMissing);
    assert!(matches!(a, ServerAction::Finish(Err(EngineError::RoomNotFound))));

    let s = tls_host_reading_length();
    let (s, _) = s.step(ServerEvent::Received(vec![0, 0, 0, 3]));
    let (s, _) = s.step(ServerEvent::Received(b"abc".to_vec()));
    let (s, _) = s.step(ServerEvent::RoomFound("abc".to_string()));
    let (_, a) = s.step(ServerEvent::WriteFailed("pipe".to_string()));
    assert!(matches!(a, ServerAction::Finish(Err(EngineError::TlsHandshakeError(m))) if m == "failed to send auth result: pipe"));

    let s = tls_host_reading_length();
    let (s, _) = s.step(ServerEvent::Received(vec![0, 0, 0, 3]));
    let (s, _) = s.step(ServerEvent::Received(b"abc".to_vec()));
    let (s, _) = s.step(ServerEvent::RoomFound("abc".to_string()));
    let (_, a) = s.step(ServerEvent::FlushFailed("pipe".to_string()));
    assert!(matches!(a, ServerAction::Finish(Err(EngineError::TlsHandshakeError(m))) if m == "failed to flush stream: pipe"));
}

fn peer() -> JoinRoomResponseBody {
    JoinRoomResponseBody { peer_ip: "127.0.0.1".to_string(), peer_port: 50002 }
}

fn joining_peer_awaiting_verdict(passcode: &str) -> JoinExchange {
    let (s, a) = JoinExchange::start(&peer(), passcode);
    match a {
        ClientAction::Connect(addr) => assert_eq!(addr, "127.0.0.1:50002"),
        _ => panic!("expected a connect"),
    }
    let (s, a) = s.step(ClientEvent::Connected);
    match a {
        ClientAction::Send(bytes) => assert_eq!(bytes, passcode_hash(passcode)),
        _ => panic!("expected a send"),
    }
    let (s, a) = s.step(ClientEvent::Sent);
    assert!(matches!(a, ClientAction::Read(1)));
    s
}

#[test]
fn joining_peer_sends_its_digest_and_reads_the_answer() {
    let s = joining_peer_awaiting_verdict("secret");
    let (s, a) = s.step(ClientEvent::Received(vec![1]));
    assert!(matches!(a, ClientAction::Finish(Ok(true))));
    assert!(matches!(s, JoinExchange::Done));
    for refused in [0u8, 2, 255] {
        let s = joining_peer_awaiting_verdict("secret");
        let (_, a) = s.step(ClientEvent::Received(vec![refused]));
        assert!(matches!(a, ClientAction::Finish(Err(EngineError::InvalidPasscode))));
    }
}

#[test]
fn joining_peer_reports_each_failure() {
    let (s, _) = JoinExchange::start(&peer(), "p");
    let (_, a) = s.step(ClientEvent::ConnectFailed("connection refused".to_string()));
    assert!(matches!(a, ClientAction::Finish(Err(EngineError::ConnectionError(m))) if m == "connection refused"));

    let (s, _) = JoinExchange::start(&peer(), "p");
    let (s, _) = s.step(ClientEvent::Connected);
    let (_, a) = s.step(ClientEvent::WriteFailed("pipe".to_string()));
    assert!(matches!(a, ClientAction::Finish(Err(EngineError::ConnectionError(m))) if m == "failed to send passcode hash: pipe"));

    let (s, _) = JoinExchange::start(&peer(), "p");
    let (s, _) = s.step(ClientEvent::Connected);
    let (_, a) = s.step(ClientEvent::FlushFailed("reset".to_string()));
    assert!(matches!(a, ClientAction::Finish(Err(EngineError::ConnectionError(m))) if m == "reset"));

    let s = joining_peer_awaiting_verdict("p");
    let (_, a) = s.step(ClientEvent::ReadFailed("eof".to_string()));
    assert!(matches!(a, ClientAction::Finish(Err(EngineError::ConnectionError(m))) if m == "failed to read auth result: eof"));
}

#[test]
fn peer_and_host_agree_on_the_outcome() {
    for (sent, stored, accepted) in [("same", "same", true), ("one", "other", false)] {
        let host = host_after_digest(passcode_hash(sent));
        let (_, a) = host.step(ServerEvent::RoomFound(stored.to_string()));
        let byte = match a {
            ServerAction::SendReply(b) => b,
            _ => panic!("expected a reply"),
        };
        let p = joining_peer_awaiting_verdict(sent);
        let (_, a) = p.step(ClientEvent::Received(vec![byte]));
        assert_eq!(matches!(a, ClientAction::Finish(Ok(true))), accepted);
    }
}

#[test]
fn tls_exchange_reads_the_store_once_and_never_writes_it() {
    let (s, a) = PasscodeExchange::start();
    let mut actions = vec![a];
    let (s, a) = s.step(ServerEvent::HandshakeDone);
    actions.push(a);
    let (s, a) = s.step(ServerEvent::Received(vec![0, 0, 0, 3]));
    actions.push(a);
    let (s, a) = s.step(ServerEvent::Received(b"pin".to_vec()));
    actions.push(a);
    let (s, a) = s.step(ServerEvent::RoomFound("pin".to_string()));
    actions.push(a);
    let (_, a) = s.step(ServerEvent::ReplySent);
    assert!(matches!(a, ServerAction::Finish(Ok(true))));
    actions.push(a);
    let lookups = actions.iter().filter(|a| matches!(a, ServerAction::LookUpRoom)).count();
    assert_eq!(lookups, 1);
    assert!(matches!(actions[3], ServerAction::LookUpRoom));
}
