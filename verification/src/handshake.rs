//! The passcode exchange between a room's host and a peer that joins it.
//!
//! Each side is a state machine: the caller performs the action that a
//! step returns (a read, a write, a room lookup, ...) and hands the
//! outcome back as the next event, until a step finishes with a result.
//!
//! The joining peer sends the SHA-256 digest of its passcode; the host
//! compares it with the digest of the passcode stored for the room and
//! answers with one byte, 1 to accept and 0 to refuse. Over TLS the peer
//! instead sends the passcode itself, as a 4-byte big-endian length
//! followed by that many bytes of UTF-8.
use vstd::prelude::*;
use vstd::utf8::{encode_utf8, valid_utf8, decode_utf8};
use crate::crypto::{sha256, sha256_digest};
use crate::text::decimal;
use crate::text::decimal_text;
use crate::types::{EngineError, JoinRoomResponseBody};

verus! {

/// The digest a peer sends for the passcode `p`: SHA-256 of its UTF-8 bytes.
pub open spec fn passcode_digest(p: Seq<char>) -> Seq<u8> {
    sha256(encode_utf8(p))
}

/// Whether the host accepts the digest `received` for a room whose
/// passcode is `stored`.
pub open spec fn digest_accepted(received: Seq<u8>, stored: Seq<char>) -> bool {
    received == passcode_digest(stored)
}

/// The byte with which the host answers: 1 to accept, 0 to refuse.
pub open spec fn reply_byte(valid: bool) -> u8 {
    if valid {
        1
    } else {
        0
    }
}

/// Whether the peer reads the host's answer `b` as an acceptance.
pub open spec fn reply_accepted(b: u8) -> bool {
    b == 1
}

/// The number written by the four bytes `b`, most significant first.
pub open spec fn be_u32(b: Seq<u8>) -> nat {
    (b[0] as nat) * 16777216 + (b[1] as nat) * 65536 + (b[2] as nat) * 256 + (b[3] as nat)
}

/// The four bytes, most significant first, that write `n` (below 2^32).
pub open spec fn be_bytes(n: nat) -> Seq<u8> {
    seq![
        ((n / 16777216) % 256) as u8,
        ((n / 65536) % 256) as u8,
        ((n / 256) % 256) as u8,
        (n % 256) as u8,
    ]
}

/// The longest passcode message, in bytes, that the host reads over TLS.
pub const MAX_PASSCODE_MESSAGE_LEN: usize = 1024;

/// The length of the digest a peer sends.
pub const DIGEST_LEN: usize = 32;

/// What the host is to do next.
pub enum ServerAction {
    /// Complete the TLS handshake with the peer.
    Handshake,
    /// Read exactly this many bytes from the peer.
    Read(usize),
    /// Find the room and hand back its stored passcode.
    LookUpRoom,
    /// Write this byte to the peer, then flush.
    SendReply(u8),
    /// Stop: the exchange is over with this result.
    Finish(Result<bool, EngineError>),
}

/// How an action touches the room store.
pub enum StoreAccess {
    Untouched,
    Read,
    Written,
}

/// How the host's action `a` touches the room store: the room lookup reads
/// it, and no other action of the exchanges touches it.
pub open spec fn server_store_access(a: ServerAction) -> StoreAccess {
    match a {
        ServerAction::LookUpRoom => StoreAccess::Read,
        _ => StoreAccess::Untouched,
    }
}

/// What happened when the host did what a step asked.
pub enum ServerEvent {
    HandshakeDone,
    HandshakeFailed(EngineError),
    /// The bytes that were read.
    Received(Vec<u8>),
    /// The read failed; the text describes why.
    ReadFailed(String),
    /// The room exists; this is its stored passcode.
    RoomFound(String),
    RoomMissing,
    /// Finding the room failed (no port, the store could not be opened ...).
    LookupFailed(EngineError),
    ReplySent,
    /// Writing the answer failed; the text describes why.
    WriteFailed(String),
    /// Flushing the answer failed; the text describes why.
    FlushFailed(String),
}

/// An action that ends the exchange with a `ConnectionError` that says `m`.
pub open spec fn ends_with_connection_error(a: ServerAction, m: Seq<char>) -> bool {
    a matches ServerAction::Finish(Err(EngineError::ConnectionError(x))) && x@ == m
}

/// An action that ends the exchange with a `TlsHandshakeError` that says `m`.
pub open spec fn ends_with_tls_error(a: ServerAction, m: Seq<char>) -> bool {
    a matches ServerAction::Finish(Err(EngineError::TlsHandshakeError(x))) && x@ == m
}

/// An action that ends the exchange with the host's decision: `Ok(true)`
/// when `valid`, `InvalidPasscode` otherwise.
pub open spec fn ends_with_verdict(a: ServerAction, valid: bool) -> bool {
    if valid {
        a matches ServerAction::Finish(Ok(true))
    } else {
        a matches ServerAction::Finish(Err(EngineError::InvalidPasscode))
    }
}

/// The host's side of the exchange over plain TCP, where the peer sends
/// the digest of its passcode.
pub enum DigestCheck {
    /// Waiting for the 32 bytes of the peer's digest.
    ReadingDigest,
    /// The digest is in; waiting for the room's stored passcode.
    LookingUpRoom { received: Vec<u8> },
    /// The verdict is reached; waiting for the answer to go out.
    Replying { valid: bool },
    /// The exchange is over.
    Done,
}

impl DigestCheck {
    /// The events that can follow the action the state asked for.
    pub open spec fn expects(&self, e: &ServerEvent) -> bool {
        match self {
            DigestCheck::ReadingDigest => match e {
                ServerEvent::Received(b) => b@.len() == DIGEST_LEN,
                ServerEvent::ReadFailed(_) => true,
                _ => false,
            },
            DigestCheck::LookingUpRoom { .. } => e is RoomFound || e is RoomMissing
                || e is LookupFailed,
            DigestCheck::Replying { .. } => e is ReplySent || e is WriteFailed || e is FlushFailed,
            DigestCheck::Done => false,
        }
    }

    /// One step of the host: the state after `e` and the next action.
    pub open spec fn step_spec(self, e: ServerEvent, next: DigestCheck, a: ServerAction) -> bool {
        match self {
            DigestCheck::ReadingDigest => match e {
                ServerEvent::Received(b) => next == (DigestCheck::LookingUpRoom { received: b })
                    && a is LookUpRoom,
                ServerEvent::ReadFailed(d) => next is Done && ends_with_connection_error(
                    a,
                    "failed to read passcode hash: "@ + d@,
                ),
                _ => true,
            },
            DigestCheck::LookingUpRoom { received } => match e {
                ServerEvent::RoomFound(p) => {
                    let valid = digest_accepted(received@, p@);
                    next == (DigestCheck::Replying { valid }) && a == ServerAction::SendReply(
                        reply_byte(valid),
                    )
                },
                ServerEvent::RoomMissing => next is Done && a matches ServerAction::Finish(
                    Err(EngineError::RoomNotFound),
                ),
                ServerEvent::LookupFailed(x) => next is Done && a == ServerAction::Finish(Err(x)),
                _ => true,
            },
            DigestCheck::Replying { valid } => match e {
                ServerEvent::ReplySent => next is Done && ends_with_verdict(a, valid),
                ServerEvent::WriteFailed(d) => next is Done && ends_with_connection_error(
                    a,
                    "failed to send auth result: "@ + d@,
                ),
                ServerEvent::FlushFailed(d) => next is Done && ends_with_connection_error(
                    a,
                    "failed to flush stream: "@ + d@,
                ),
                _ => true,
            },
            DigestCheck::Done => true,
        }
    }

    /// The first state and action: read the peer's digest.
    pub fn start() -> (r: (DigestCheck, ServerAction))
        ensures
            r.0 is ReadingDigest,
            r.1 == ServerAction::Read(DIGEST_LEN),
    {
        (DigestCheck::ReadingDigest, ServerAction::Read(DIGEST_LEN))
    }

    /// Advances the host by the event `e`.
    pub fn step(self, e: ServerEvent) -> (r: (DigestCheck, ServerAction))
        requires
            self.expects(&e),
        ensures
            self.step_spec(e, r.0, r.1),
    {
        match self {
            DigestCheck::ReadingDigest => match e {
                ServerEvent::Received(b) => (
                    DigestCheck::LookingUpRoom { received: b },
                    ServerAction::LookUpRoom,
                ),
                ServerEvent::ReadFailed(d) => (
                    DigestCheck::Done,
                    ServerAction::Finish(Err(connection_error(
                        "failed to read passcode hash: ",
                        d.as_str(),
                    ))),
                ),
                _ => (DigestCheck::Done, ServerAction::LookUpRoom),
            },
            DigestCheck::LookingUpRoom { received } => match e {
                ServerEvent::RoomFound(p) => {
                    let valid = digest_matches(received.as_slice(), p.as_str());
                    (DigestCheck::Replying { valid }, ServerAction::SendReply(reply(valid)))
                },
                ServerEvent::RoomMissing => (
                    DigestCheck::Done,
                    ServerAction::Finish(Err(EngineError::RoomNotFound)),
                ),
                ServerEvent::LookupFailed(x) => (DigestCheck::Done, ServerAction::Finish(Err(x))),
                _ => (DigestCheck::Done, ServerAction::LookUpRoom),
            },
            DigestCheck::Replying { valid } => match e {
                ServerEvent::ReplySent => (DigestCheck::Done, ServerAction::Finish(verdict(valid))),
                ServerEvent::WriteFailed(d) => (
                    DigestCheck::Done,
                    ServerAction::Finish(Err(connection_error(
                        "failed to send auth result: ",
                        d.as_str(),
                    ))),
                ),
                ServerEvent::FlushFailed(d) => (
                    DigestCheck::Done,
                    ServerAction::Finish(Err(connection_error(
                        "failed to flush stream: ",
                        d.as_str(),
                    ))),
                ),
                _ => (DigestCheck::Done, ServerAction::LookUpRoom),
            },
            DigestCheck::Done => (DigestCheck::Done, ServerAction::LookUpRoom),
        }
    }
}

/// The text `prefix` followed by `detail`.
pub fn joined(prefix: &str, detail: &str) -> (s: String)
    ensures
        s@ == prefix@ + detail@,
{
    let mut s = String::from_str(prefix);
    s.append(detail);
    s
}

/// A `ConnectionError` that says `prefix` followed by `detail`.
pub fn connection_error(prefix: &str, detail: &str) -> (e: EngineError)
    ensures
        e matches EngineError::ConnectionError(m) && m@ == prefix@ + detail@,
{
    EngineError::ConnectionError(joined(prefix, detail))
}

/// A `TlsHandshakeError` that says `prefix` followed by `detail`.
pub fn tls_error(prefix: &str, detail: &str) -> (e: EngineError)
    ensures
        e matches EngineError::TlsHandshakeError(m) && m@ == prefix@ + detail@,
{
    EngineError::TlsHandshakeError(joined(prefix, detail))
}

/// Whether two byte strings are equal.
pub fn bytes_equal(a: &[u8], b: &[u8]) -> (r: bool)
    ensures
        r == (a@ == b@),
{
    if a.len() != b.len() {
        return false;
    }
    let mut i: usize = 0;
    while i < a.len()
        invariant
            a@.len() == b@.len(),
            i <= a@.len(),
            forall|j: int| 0 <= j < i ==> a@[j] == b@[j],
        decreases a@.len() - i,
    {
        if a[i] != b[i] {
            return false;
        }
        i = i + 1;
    }
    assert(a@ =~= b@);
    true
}

/// The digest of a passcode, as a joining peer sends it.
pub fn passcode_hash(passcode: &str) -> (d: Vec<u8>)
    ensures
        d@ == passcode_digest(passcode@),
        d@.len() == DIGEST_LEN,
{
    sha256_digest(passcode.as_bytes())
}

/// Whether the digest `received` is the digest of the stored passcode.
pub fn digest_matches(received: &[u8], stored: &str) -> (r: bool)
    ensures
        r == digest_accepted(received@, stored@),
{
    let expected = passcode_hash(stored);
    bytes_equal(received, expected.as_slice())
}

/// The host's answer byte for a verdict.
pub fn reply(valid: bool) -> (b: u8)
    ensures
        b == reply_byte(valid),
{
    if valid {
        1
    } else {
        0
    }
}

/// The result with which the host ends an exchange whose answer went out.
pub fn verdict(valid: bool) -> (r: Result<bool, EngineError>)
    ensures
        valid ==> r matches Ok(true),
        !valid ==> (r matches Err(e) && e is InvalidPasscode),
{
    if valid {
        Ok(true)
    } else {
        Err(EngineError::InvalidPasscode)
    }
}


/// The number written by four bytes, most significant first.
pub fn decode_be_u32(b: &[u8]) -> (n: u32)
    requires
        b@.len() == 4,
    ensures
        n as nat == be_u32(b@),
{
    (b[0] as u32) * 16777216 + (b[1] as u32) * 65536 + (b[2] as u32) * 256 + (b[3] as u32)
}

/// Decodes `bytes` as UTF-8 with `String::from_utf8`. Trusted: as std
/// documents, the text comes back exactly when the bytes are valid UTF-8,
/// and it is the text they encode.
#[verifier::external_body]
fn utf8_text(bytes: Vec<u8>) -> (r: Result<String, std::string::FromUtf8Error>)
    ensures
        match r {
            Ok(s) => valid_utf8(bytes@) && s@ == decode_utf8(bytes@),
            Err(_) => !valid_utf8(bytes@),
        },
{
    String::from_utf8(bytes)
}

/// The host's side of the exchange over TLS, where the peer sends its
/// passcode as a length-prefixed UTF-8 message.
pub enum PasscodeExchange {
    /// Waiting for the TLS handshake (which pins the peer's certificate).
    Handshaking,
    /// Waiting for the 4 bytes of the message length.
    ReadingLength,
    /// Waiting for the `len` bytes of the passcode.
    ReadingPasscode { len: usize },
    /// The passcode is in; waiting for the room's stored passcode.
    LookingUpRoom { passcode: String },
    /// The verdict is reached; waiting for the answer to go out.
    Replying { valid: bool },
    /// The exchange is over.
    Done,
}

impl PasscodeExchange {
    /// The events that can follow the action the state asked for.
    pub open spec fn expects(&self, e: &ServerEvent) -> bool {
        match self {
            PasscodeExchange::Handshaking => e is HandshakeDone || e is HandshakeFailed,
            PasscodeExchange::ReadingLength => match e {
                ServerEvent::Received(b) => b@.len() == 4,
                ServerEvent::ReadFailed(_) => true,
                _ => false,
            },
            PasscodeExchange::ReadingPasscode { len } => match e {
                ServerEvent::Received(b) => b@.len() == len,
                ServerEvent::ReadFailed(_) => true,
                _ => false,
            },
            PasscodeExchange::LookingUpRoom { .. } => e is RoomFound || e is RoomMissing
                || e is LookupFailed,
            PasscodeExchange::Replying { .. } => e is ReplySent || e is WriteFailed
                || e is FlushFailed,
            PasscodeExchange::Done => false,
        }
    }

    /// One step of the host: the state after `e` and the next action.
    pub open spec fn step_spec(
        self,
        e: ServerEvent,
        next: PasscodeExchange,
        a: ServerAction,
    ) -> bool {
        match self {
            PasscodeExchange::Handshaking => match e {
                ServerEvent::HandshakeDone => next is ReadingLength && a == ServerAction::Read(4),
                ServerEvent::HandshakeFailed(x) => next is Done && a == ServerAction::Finish(
                    Err(x),
                ),
                _ => true,
            },
            PasscodeExchange::ReadingLength => match e {
                ServerEvent::Received(b) => {
                    let n = be_u32(b@);
                    if n > MAX_PASSCODE_MESSAGE_LEN {
                        next is Done && ends_with_tls_error(a, "passcode message too large"@)
                    } else {
                        next == (PasscodeExchange::ReadingPasscode { len: n as usize })
                            && a == ServerAction::Read(n as usize)
                    }
                },
                ServerEvent::ReadFailed(d) => next is Done && ends_with_tls_error(
                    a,
                    "failed to read passcode length: "@ + d@,
                ),
                _ => true,
            },
            PasscodeExchange::ReadingPasscode { .. } => match e {
                ServerEvent::Received(b) => if valid_utf8(b@) {
                    next matches PasscodeExchange::LookingUpRoom { passcode } && passcode@
                        == decode_utf8(b@) && a is LookUpRoom
                } else {
                    next is Done && ends_with_tls_error(a, "passcode was not valid UTF-8"@)
                },
                ServerEvent::ReadFailed(d) => next is Done && ends_with_tls_error(
                    a,
                    "failed to read passcode: "@ + d@,
                ),
                _ => true,
            },
            PasscodeExchange::LookingUpRoom { passcode } => match e {
                ServerEvent::RoomFound(p) => {
                    let valid = p@ == passcode@;
                    next == (PasscodeExchange::Replying { valid }) && a == ServerAction::SendReply(
                        reply_byte(valid),
                    )
                },
                ServerEvent::RoomMissing => next is Done && a matches ServerAction::Finish(
                    Err(EngineError::RoomNotFound),
                ),
                ServerEvent::LookupFailed(x) => next is Done && a == ServerAction::Finish(Err(x)),
                _ => true,
            },
            PasscodeExchange::Replying { valid } => match e {
                ServerEvent::ReplySent => next is Done && ends_with_verdict(a, valid),
                ServerEvent::WriteFailed(d) => next is Done && ends_with_tls_error(
                    a,
                    "failed to send auth result: "@ + d@,
                ),
                ServerEvent::FlushFailed(d) => next is Done && ends_with_tls_error(
                    a,
                    "failed to flush stream: "@ + d@,
                ),
                _ => true,
            },
            PasscodeExchange::Done => true,
        }
    }

    /// The first state and action: complete the TLS handshake.
    pub fn start() -> (r: (PasscodeExchange, ServerAction))
        ensures
            r.0 is Handshaking,
            r.1 is Handshake,
    {
        (PasscodeExchange::Handshaking, ServerAction::Handshake)
    }

    /// Advances the host by the event `e`.
    pub fn step(self, e: ServerEvent) -> (r: (PasscodeExchange, ServerAction))
        requires
            self.expects(&e),
        ensures
            self.step_spec(e, r.0, r.1),
    {
        match self {
            PasscodeExchange::Handshaking => match e {
                ServerEvent::HandshakeDone => (
                    PasscodeExchange::ReadingLength,
                    ServerAction::Read(4),
                ),
                ServerEvent::HandshakeFailed(x) => (
                    PasscodeExchange::Done,
                    ServerAction::Finish(Err(x)),
                ),
                _ => (PasscodeExchange::Done, ServerAction::Handshake),
            },
            PasscodeExchange::ReadingLength => match e {
                ServerEvent::Received(b) => {
                    let n = decode_be_u32(b.as_slice());
                    if n as usize > MAX_PASSCODE_MESSAGE_LEN {
                        (
                            PasscodeExchange::Done,
                            ServerAction::Finish(Err(EngineError::TlsHandshakeError(
                                String::from_str("passcode message too large"),
                            ))),
                        )
                    } else {
                        (
                            PasscodeExchange::ReadingPasscode { len: n as usize },
                            ServerAction::Read(n as usize),
                        )
                    }
                },
                ServerEvent::ReadFailed(d) => (
                    PasscodeExchange::Done,
                    ServerAction::Finish(Err(tls_error(
                        "failed to read passcode length: ",
                        d.as_str(),
                    ))),
                ),
                _ => (PasscodeExchange::Done, ServerAction::Handshake),
            },
            PasscodeExchange::ReadingPasscode { .. } => match e {
                ServerEvent::Received(b) => match utf8_text(b) {
                    Ok(passcode) => (
                        PasscodeExchange::LookingUpRoom { passcode },
                        ServerAction::LookUpRoom,
                    ),
                    Err(_) => (
                        PasscodeExchange::Done,
                        ServerAction::Finish(Err(EngineError::TlsHandshakeError(
                            String::from_str("passcode was not valid UTF-8"),
                        ))),
                    ),
                },
                ServerEvent::ReadFailed(d) => (
                    PasscodeExchange::Done,
                    ServerAction::Finish(Err(tls_error(
                        "failed to read passcode: ",
                        d.as_str(),
                    ))),
                ),
                _ => (PasscodeExchange::Done, ServerAction::Handshake),
            },
            PasscodeExchange::LookingUpRoom { passcode } => match e {
                ServerEvent::RoomFound(p) => {
                    let valid = p == passcode;
                    (PasscodeExchange::Replying { valid }, ServerAction::SendReply(reply(valid)))
                },
                ServerEvent::RoomMissing => (
                    PasscodeExchange::Done,
                    ServerAction::Finish(Err(EngineError::RoomNotFound)),
                ),
                ServerEvent::LookupFailed(x) => (
                    PasscodeExchange::Done,
                    ServerAction::Finish(Err(x)),
                ),
                _ => (PasscodeExchange::Done, ServerAction::Handshake),
            },
            PasscodeExchange::Replying { valid } => match e {
                ServerEvent::ReplySent => (
                    PasscodeExchange::Done,
                    ServerAction::Finish(verdict(valid)),
                ),
                ServerEvent::WriteFailed(d) => (
                    PasscodeExchange::Done,
                    ServerAction::Finish(Err(tls_error(
                        "failed to send auth result: ",
                        d.as_str(),
                    ))),
                ),
                ServerEvent::FlushFailed(d) => (
                    PasscodeExchange::Done,
                    ServerAction::Finish(Err(tls_error(
                        "failed to flush stream: ",
                        d.as_str(),
                    ))),
                ),
                _ => (PasscodeExchange::Done, ServerAction::Handshake),
            },
            PasscodeExchange::Done => (PasscodeExchange::Done, ServerAction::Handshake),
        }
    }
}

/// The address `ip:port` at which a room's host listens.
pub open spec fn peer_address(ip: Seq<char>, port: u16) -> Seq<char> {
    ip + ":"@ + decimal(port as nat)
}

/// What the joining peer is to do next.
pub enum ClientAction {
    /// Open a TCP connection to this address.
    Connect(String),
    /// Write these bytes to the host, then flush.
    Send(Vec<u8>),
    /// Read exactly this many bytes from the host.
    Read(usize),
    /// Stop: the exchange is over with this result.
    Finish(Result<bool, EngineError>),
}

/// What happened when the peer did what a step asked.
pub enum ClientEvent {
    Connected,
    /// The connection failed; the text describes why.
    ConnectFailed(String),
    Sent,
    /// Writing failed; the text describes why.
    WriteFailed(String),
    /// Flushing failed; the text describes why.
    FlushFailed(String),
    /// The bytes that were read.
    Received(Vec<u8>),
    /// The read failed; the text describes why.
    ReadFailed(String),
}

/// An action that ends the peer's exchange with a `ConnectionError` that
/// says `m`.
pub open spec fn client_ends_with_connection_error(a: ClientAction, m: Seq<char>) -> bool {
    a matches ClientAction::Finish(Err(EngineError::ConnectionError(x))) && x@ == m
}

/// The joining peer's side of the exchange over plain TCP.
pub enum JoinExchange {
    /// Waiting for the connection; `digest` is what will be sent.
    Connecting { digest: Vec<u8> },
    /// Waiting for the digest to go out.
    SendingDigest,
    /// Waiting for the host's one-byte answer.
    AwaitingVerdict,
    /// The exchange is over.
    Done,
}

impl JoinExchange {
    /// The events that can follow the action the state asked for.
    pub open spec fn expects(&self, e: &ClientEvent) -> bool {
        match self {
            JoinExchange::Connecting { .. } => e is Connected || e is ConnectFailed,
            JoinExchange::SendingDigest => e is Sent || e is WriteFailed || e is FlushFailed,
            JoinExchange::AwaitingVerdict => match e {
                ClientEvent::Received(b) => b@.len() == 1,
                ClientEvent::ReadFailed(_) => true,
                _ => false,
            },
            JoinExchange::Done => false,
        }
    }

    /// One step of the peer: the state after `e` and the next action.
    pub open spec fn step_spec(self, e: ClientEvent, next: JoinExchange, a: ClientAction) -> bool {
        match self {
            JoinExchange::Connecting { digest } => match e {
                ClientEvent::Connected => next is SendingDigest && a == ClientAction::Send(digest),
                ClientEvent::ConnectFailed(d) => next is Done && client_ends_with_connection_error(
                    a,
                    d@,
                ),
                _ => true,
            },
            JoinExchange::SendingDigest => match e {
                ClientEvent::Sent => next is AwaitingVerdict && a == ClientAction::Read(1),
                ClientEvent::WriteFailed(d) => next is Done && client_ends_with_connection_error(
                    a,
                    "failed to send passcode hash: "@ + d@,
                ),
                ClientEvent::FlushFailed(d) => next is Done && client_ends_with_connection_error(
                    a,
                    d@,
                ),
                _ => true,
            },
            JoinExchange::AwaitingVerdict => match e {
                ClientEvent::Received(b) => next is Done && if reply_accepted(b@[0]) {
                    a matches ClientAction::Finish(Ok(true))
                } else {
                    a matches ClientAction::Finish(Err(EngineError::InvalidPasscode))
                },
                ClientEvent::ReadFailed(d) => next is Done && client_ends_with_connection_error(
                    a,
                    "failed to read auth result: "@ + d@,
                ),
                _ => true,
            },
            JoinExchange::Done => true,
        }
    }

    /// The first state and action of a peer joining the room whose host
    /// `peer` names, with `passcode`: connect to the host, then send the
    /// passcode's digest.
    pub fn start(peer: &JoinRoomResponseBody, passcode: &str) -> (r: (JoinExchange, ClientAction))
        ensures
            r.0 matches JoinExchange::Connecting { digest } && digest@ == passcode_digest(
                passcode@,
            ) && digest@.len() == DIGEST_LEN,
            r.1 matches ClientAction::Connect(addr) && addr@ == peer_address(
                peer.peer_ip@,
                peer.peer_port,
            ),
            r.0 matches JoinExchange::Connecting { digest } && digest@ == sha256(
                encode_utf8(passcode@),
            ),
            r.1 matches ClientAction::Connect(addr) && addr@ == peer.peer_ip@ + ":"@ + decimal(
                peer.peer_port as nat,
            ),
    {
        let mut addr = peer.peer_ip.clone();
        addr.append(":");
        let port = decimal_text(peer.peer_port as u32);
        addr.append(port.as_str());
        (JoinExchange::Connecting { digest: passcode_hash(passcode) }, ClientAction::Connect(addr))
    }

    /// Advances the peer by the event `e`.
    pub fn step(self, e: ClientEvent) -> (r: (JoinExchange, ClientAction))
        requires
            self.expects(&e),
        ensures
            self.step_spec(e, r.0, r.1),
    {
        match self {
            JoinExchange::Connecting { digest } => match e {
                ClientEvent::Connected => (JoinExchange::SendingDigest, ClientAction::Send(digest)),
                ClientEvent::ConnectFailed(d) => (
                    JoinExchange::Done,
                    ClientAction::Finish(Err(EngineError::ConnectionError(d))),
                ),
                _ => (JoinExchange::Done, ClientAction::Read(0)),
            },
            JoinExchange::SendingDigest => match e {
                ClientEvent::Sent => (JoinExchange::AwaitingVerdict, ClientAction::Read(1)),
                ClientEvent::WriteFailed(d) => (
                    JoinExchange::Done,
                    ClientAction::Finish(Err(connection_error(
                        "failed to send passcode hash: ",
                        d.as_str(),
                    ))),
                ),
                ClientEvent::FlushFailed(d) => (
                    JoinExchange::Done,
                    ClientAction::Finish(Err(EngineError::ConnectionError(d))),
                ),
                _ => (JoinExchange::Done, ClientAction::Read(0)),
            },
            JoinExchange::AwaitingVerdict => match e {
                ClientEvent::Received(b) => {
                    if b[0] != 1 {
                        (
                            JoinExchange::Done,
                            ClientAction::Finish(Err(EngineError::InvalidPasscode)),
                        )
                    } else {
                        (JoinExchange::Done, ClientAction::Finish(Ok(true)))
                    }
                },
                ClientEvent::ReadFailed(d) => (
                    JoinExchange::Done,
                    ClientAction::Finish(Err(connection_error(
                        "failed to read auth result: ",
                        d.as_str(),
                    ))),
                ),
                _ => (JoinExchange::Done, ClientAction::Read(0)),
            },
            JoinExchange::Done => (JoinExchange::Done, ClientAction::Read(0)),
        }
    }
}


/// A peer that sends the digest of the room's own passcode is accepted;
/// in general a digest is accepted exactly when it equals the digest of
/// the stored passcode.
pub proof fn law_digest_of_stored_passcode_is_accepted(sent: Seq<char>, stored: Seq<char>)
    ensures
        digest_accepted(passcode_digest(sent), stored) <==> passcode_digest(sent)
            == passcode_digest(stored),
        sent == stored ==> digest_accepted(passcode_digest(sent), stored),
{
}

/// The peer reads the host's answer as the host meant it.
pub proof fn law_peer_reads_host_verdict(valid: bool)
    ensures
        reply_accepted(reply_byte(valid)) == valid,
{
}

/// Writing a length as four big-endian bytes and reading them back gives
/// the length.
pub proof fn law_length_prefix_round_trip(n: nat)
    requires
        n < 0x1_0000_0000,
    ensures
        be_bytes(n).len() == 4,
        be_u32(be_bytes(n)) == n,
{
    let b = be_bytes(n);
    assert(b[0] as nat == (n / 16777216) % 256);
    assert(b[1] as nat == (n / 65536) % 256);
    assert(b[2] as nat == (n / 256) % 256);
    assert(b[3] as nat == n % 256);
    assert(((n / 16777216) % 256) * 16777216 + ((n / 65536) % 256) * 65536 + ((n / 256) % 256)
        * 256 + n % 256 == n) by (nonlinear_arith)
        requires
            n < 0x1_0000_0000,
    ;
}

/// Over plain TCP: the digest a joining peer sends is what the host
/// reads; when the room exists, the host answers it with 1 and ends with
/// `Ok(true)` exactly when it is the digest of the stored passcode, and
/// otherwise answers 0 and ends with `InvalidPasscode`. The peer that
/// reads the answer ends the same way.
pub proof fn law_peer_and_host_agree(
    sent: Seq<char>,
    digest: Vec<u8>,
    stored: String,
    host1: DigestCheck,
    host_lookup: ServerAction,
    host2: DigestCheck,
    host_reply: ServerAction,
    host3: DigestCheck,
    host_end: ServerAction,
    answer: Vec<u8>,
    peer2: JoinExchange,
    peer_end: ClientAction,
)
    requires
        (JoinExchange::Connecting { digest }).step_spec(
            ClientEvent::Connected,
            JoinExchange::SendingDigest,
            ClientAction::Send(digest),
        ),
        digest@ == passcode_digest(sent),
        digest@.len() == DIGEST_LEN,
        DigestCheck::ReadingDigest.step_spec(ServerEvent::Received(digest), host1, host_lookup),
        host1.step_spec(ServerEvent::RoomFound(stored), host2, host_reply),
        host2.step_spec(ServerEvent::ReplySent, host3, host_end),
        host_reply matches ServerAction::SendReply(b) && answer@ == seq![b],
        JoinExchange::AwaitingVerdict.step_spec(ClientEvent::Received(answer), peer2, peer_end),
    ensures
        DigestCheck::ReadingDigest.expects(&ServerEvent::Received(digest)),
        host_lookup is LookUpRoom,
        host_reply == ServerAction::SendReply(
            reply_byte(passcode_digest(sent) == passcode_digest(stored@)),
        ),
        ends_with_verdict(host_end, passcode_digest(sent) == passcode_digest(stored@)),
        (peer_end matches ClientAction::Finish(Ok(true))) <==> passcode_digest(sent)
            == passcode_digest(stored@),
        peer_end matches ClientAction::Finish(Err(e)) ==> e is InvalidPasscode,
{
}

/// Over TLS: a peer that sends the length of the stored passcode's UTF-8
/// bytes as four big-endian bytes, then those bytes, is asked for exactly
/// that many bytes, is answered with 1 and ends accepted, provided the
/// message is at most 1024 bytes long.
pub proof fn law_stored_passcode_is_accepted_over_tls(
    stored: String,
    length: Vec<u8>,
    message: Vec<u8>,
    s1: PasscodeExchange,
    a1: ServerAction,
    s2: PasscodeExchange,
    a2: ServerAction,
    s3: PasscodeExchange,
    a3: ServerAction,
    s4: PasscodeExchange,
    a4: ServerAction,
)
    requires
        message@ == encode_utf8(stored@),
        message@.len() <= MAX_PASSCODE_MESSAGE_LEN,
        length@ == be_bytes(message@.len()),
        PasscodeExchange::ReadingLength.step_spec(ServerEvent::Received(length), s1, a1),
        s1.step_spec(ServerEvent::Received(message), s2, a2),
        s2.step_spec(ServerEvent::RoomFound(stored), s3, a3),
        s3.step_spec(ServerEvent::ReplySent, s4, a4),
    ensures
        a1 == ServerAction::Read(message@.len() as usize),
        a2 is LookUpRoom,
        a3 == ServerAction::SendReply(1),
        a4 matches ServerAction::Finish(Ok(true)),
{
    law_length_prefix_round_trip(message@.len());
    vstd::utf8::encode_utf8_valid_utf8(stored@);
    vstd::utf8::encode_utf8_decode_utf8(stored@);
}

/// The TLS exchange never writes the room store: no step asks for a
/// write, and a step asks to read it exactly when the passcode is in and
/// the room is to be looked up; so an exchange that ends with `Ok(true)`
/// leaves the room, `connected` included, as it found it. The plain
/// exchange touches the store in the same way.
pub proof fn law_tls_exchange_never_writes_the_store(
    s: PasscodeExchange,
    e: ServerEvent,
    next: PasscodeExchange,
    a: ServerAction,
    d: DigestCheck,
    de: ServerEvent,
    dn: DigestCheck,
    da: ServerAction,
)
    ensures
        server_store_access(ServerAction::Handshake) == StoreAccess::Untouched,
        s.expects(&e) && s.step_spec(e, next, a) ==> {
            &&& server_store_access(a) != StoreAccess::Written
            &&& (server_store_access(a) == StoreAccess::Read <==> next is LookingUpRoom)
        },
        d.expects(&de) && d.step_spec(de, dn, da) ==> {
            &&& server_store_access(da) != StoreAccess::Written
            &&& (server_store_access(da) == StoreAccess::Read <==> dn is LookingUpRoom)
        },
{
}

/// Over TLS the host's verdict is the equality of the two passcodes: when
/// the room is found with stored passcode `stored` and the peer sent
/// `received`, the host answers 1 and ends with `Ok(true)` if the two
/// texts are equal, and answers 0 and ends with `InvalidPasscode` if they
/// differ in any way (a longer or shorter passcode included).
pub proof fn law_tls_verdict_is_passcode_equality(
    stored: String,
    received: String,
    s1: PasscodeExchange,
    a1: ServerAction,
    s2: PasscodeExchange,
    a2: ServerAction,
)
    requires
        (PasscodeExchange::LookingUpRoom { passcode: received }).step_spec(
            ServerEvent::RoomFound(stored),
            s1,
            a1,
        ),
        s1.step_spec(ServerEvent::ReplySent, s2, a2),
    ensures
        stored@ == received@ ==> (a1 == ServerAction::SendReply(1u8) && a2 matches ServerAction::Finish(Ok(true))),
        stored@ != received@ ==> (a1 == ServerAction::SendReply(0u8) && a2 matches ServerAction::Finish(
            Err(EngineError::InvalidPasscode),
        )),
{
}

/// Over plain TCP the host's verdict is the equality of the received bytes
/// with the SHA-256 digest of the stored passcode's UTF-8 bytes: equal,
/// and the host answers 1 and ends with `Ok(true)`; different in any byte,
/// and it answers 0 and ends with `InvalidPasscode`. The peer ends
/// accepted exactly when it reads the byte 1.
pub proof fn law_plain_verdict_is_digest_equality(
    stored: String,
    received: Vec<u8>,
    s1: DigestCheck,
    a1: ServerAction,
    s2: DigestCheck,
    a2: ServerAction,
    answer: Vec<u8>,
    p: JoinExchange,
    pa: ClientAction,
)
    requires
        (DigestCheck::LookingUpRoom { received }).step_spec(ServerEvent::RoomFound(stored), s1, a1),
        s1.step_spec(ServerEvent::ReplySent, s2, a2),
        answer@.len() == 1,
        JoinExchange::AwaitingVerdict.step_spec(ClientEvent::Received(answer), p, pa),
    ensures
        received@ == sha256(encode_utf8(stored@)) ==> (a1 == ServerAction::SendReply(1u8)
            && a2 matches ServerAction::Finish(Ok(true))),
        received@ != sha256(encode_utf8(stored@)) ==> (a1 == ServerAction::SendReply(0u8)
            && a2 matches ServerAction::Finish(Err(EngineError::InvalidPasscode))),
        answer@[0] == 1u8 ==> pa matches ClientAction::Finish(Ok(true)),
        answer@[0] != 1u8 ==> pa matches ClientAction::Finish(Err(EngineError::InvalidPasscode)),
{
}

/// Over TLS the passcode's length is read as four bytes, most significant
/// first: a length of at most 1024 is what the host then reads, and a
/// longer one ends the exchange with "passcode message too large".
pub proof fn law_tls_length_is_big_endian_and_capped(
    b: Vec<u8>,
    next: PasscodeExchange,
    a: ServerAction,
)
    requires
        b@.len() == 4,
        PasscodeExchange::ReadingLength.step_spec(ServerEvent::Received(b), next, a),
    ensures
        ({
            let n = b@[0] as int * 16777216 + b@[1] as int * 65536 + b@[2] as int * 256
                + b@[3] as int;
            &&& n <= 1024 ==> (a == ServerAction::Read(n as usize) && next == (
                PasscodeExchange::ReadingPasscode { len: n as usize }))
            &&& n > 1024 ==> next is Done
            &&& n > 1024 ==> (a matches ServerAction::Finish(
                Err(EngineError::TlsHandshakeError(m))) && m@ == "passcode message too large"@)
        }),
{
}

/// How many steps at most remain before the host's plain exchange ends.
pub open spec fn digest_check_stage(s: DigestCheck) -> nat {
    match s {
        DigestCheck::ReadingDigest => 3,
        DigestCheck::LookingUpRoom { .. } => 2,
        DigestCheck::Replying { .. } => 1,
        DigestCheck::Done => 0,
    }
}

/// How many steps at most remain before the host's TLS exchange ends.
pub open spec fn passcode_exchange_stage(s: PasscodeExchange) -> nat {
    match s {
        PasscodeExchange::Handshaking => 5,
        PasscodeExchange::ReadingLength => 4,
        PasscodeExchange::ReadingPasscode { .. } => 3,
        PasscodeExchange::LookingUpRoom { .. } => 2,
        PasscodeExchange::Replying { .. } => 1,
        PasscodeExchange::Done => 0,
    }
}

/// How many steps at most remain before the joining peer's exchange ends.
pub open spec fn join_exchange_stage(s: JoinExchange) -> nat {
    match s {
        JoinExchange::Connecting { .. } => 3,
        JoinExchange::SendingDigest => 2,
        JoinExchange::AwaitingVerdict => 1,
        JoinExchange::Done => 0,
    }
}

/// Every exchange ends: each step moves to a later stage, and a step asks
/// to finish exactly when it reaches the end, after which no event is
/// expected.
pub proof fn law_every_exchange_ends(
    d: DigestCheck,
    de: ServerEvent,
    dn: DigestCheck,
    da: ServerAction,
    p: PasscodeExchange,
    pe: ServerEvent,
    pn: PasscodeExchange,
    pa: ServerAction,
    j: JoinExchange,
    je: ClientEvent,
    jn: JoinExchange,
    ja: ClientAction,
)
    ensures
        d.expects(&de) && d.step_spec(de, dn, da) ==> digest_check_stage(dn) < digest_check_stage(
            d,
        ) && (dn is Done <==> da is Finish),
        p.expects(&pe) && p.step_spec(pe, pn, pa) ==> passcode_exchange_stage(pn)
            < passcode_exchange_stage(p) && (pn is Done <==> pa is Finish),
        j.expects(&je) && j.step_spec(je, jn, ja) ==> join_exchange_stage(jn)
            < join_exchange_stage(j) && (jn is Done <==> ja is Finish),
        !DigestCheck::Done.expects(&de),
        !PasscodeExchange::Done.expects(&pe),
        !JoinExchange::Done.expects(&je),
{
}

} // verus!
