//! Finding the engine's public address with a STUN binding request.
//!
//! The probe is a state machine: the caller binds the socket, sends the
//! request and receives the answer as each step asks, and reports how it
//! went; the probe builds the request and reads the answer.
use vstd::prelude::*;
use crate::text::{decimal, decimal_text};
use crate::types::EngineError;

verus! {

/// The STUN server that is asked.
pub const STUN_SERVER: &'static str = "stun.l.google.com:19302";

/// How long, in seconds, the probe waits for the server's answer.
pub const STUN_READ_TIMEOUT_SECS: u64 = 5;

/// The largest answer, in bytes, that the probe reads.
pub const STUN_RECEIVE_BUFFER_LEN: usize = 1500;

/// The address and port at which the outside world sees the engine; the
/// address is written as Rust writes an IP address.
pub struct PublicAddress {
    pub ip: String,
    pub port: u16,
}

/// The local address to which the probe's UDP socket is bound.
pub open spec fn stun_bind_address(local_port: u16) -> Seq<char> {
    "0.0.0.0:"@ + decimal(local_port as nat)
}

/// The binding request the probe sends: a 20-byte STUN header of type
/// 0x0001 with no attributes (length 0), the magic cookie 0x2112A442 and
/// the all-zero transaction id.
pub open spec fn binding_request_bytes() -> Seq<u8> {
    seq![0x00u8, 0x01, 0x00, 0x00, 0x21, 0x12, 0xA4, 0x42] + Seq::new(12, |i: int| 0u8)
}

/// The transaction id of a STUN request: bytes 8 to 20 of its header.
pub open spec fn request_transaction_id(request: Seq<u8>) -> Seq<u8> {
    request.subrange(8, 20)
}

/// The transaction id of the STUN message in `bytes`, read as the STUN
/// client reads an answer (`Message::read_from`, which takes at most the
/// first 120 bytes), or `None` where that read fails.
pub uninterp spec fn stun_transaction_id(bytes: Seq<u8>) -> Option<Seq<u8>>;

/// The XOR-MAPPED-ADDRESS (the address, as Rust writes it, and the port)
/// of the STUN message in `bytes`, read as the STUN client reads an
/// answer (at most its first 120 bytes), or `None` where that read fails
/// or the message holds no well-formed such attribute.
pub uninterp spec fn stun_xor_mapped_address(bytes: Seq<u8>) -> Option<(Seq<char>, u16)>;

/// What the answer `response` says to the binding request `request`:
/// `None` when it answers another transaction, a failure when it is no
/// STUN message or carries no mapped address, and otherwise the address.
pub open spec fn binding_answer(request: Seq<u8>, response: Seq<u8>) -> Option<
    Result<(Seq<char>, u16), ()>,
> {
    match stun_transaction_id(response) {
        None => Some(Err(())),
        Some(id) => if id == request_transaction_id(request) {
            match stun_xor_mapped_address(response) {
                Some(a) => Some(Ok(a)),
                None => Some(Err(())),
            }
        } else {
            None
        },
    }
}

/// Builds the binding request: an empty `rtc_stun::message::Message` given
/// the default (all-zero) `TransactionId` and `BINDING_REQUEST` by
/// `Message::build`, as bytes. Trusted: as rtc-stun's source shows,
/// building from these two never fails and writes exactly the 20-byte
/// header with that id.
#[verifier::external_body]
fn binding_request() -> (r: Result<Vec<u8>, rtc_shared::error::Error>)
    ensures
        r is Ok,
        r matches Ok(v) ==> v@ == binding_request_bytes(),
{
    let mut m = rtc_stun::message::Message::new();
    let id = rtc_stun::message::TransactionId::default();
    match m.build(&[Box::new(id), Box::new(rtc_stun::message::BINDING_REQUEST)]) {
        Ok(()) => Ok(m.raw),
        Err(e) => Err(e),
    }
}

/// Reads the STUN message in `bytes` with `Message::read_from`, through a
/// `BufReader` as the STUN client does, and copies out its transaction id.
/// Trusted: the outcome is the one `stun_transaction_id` names, and an id
/// is 12 bytes long.
#[verifier::external_body]
fn transaction_id_of(bytes: &[u8]) -> (r: Result<Vec<u8>, rtc_shared::error::Error>)
    ensures
        match r {
            Ok(id) => stun_transaction_id(bytes@) == Some(id@) && id@.len() == 12,
            Err(_) => stun_transaction_id(bytes@) is None,
        },
{
    let mut m = rtc_stun::message::Message::new();
    match m.read_from(&mut std::io::BufReader::new(bytes)) {
        Ok(_) => Ok(m.transaction_id.0.to_vec()),
        Err(e) => Err(e),
    }
}

/// Reads the STUN message in `bytes` as the STUN client does
/// (`Message::read_from` through a `BufReader`) and its XOR-MAPPED-ADDRESS
/// with `XorMappedAddress::get_from`, writing the address as text.
/// Trusted: the outcome is the one `stun_xor_mapped_address` names.
#[verifier::external_body]
fn mapped_address_of(bytes: &[u8]) -> (r: Result<PublicAddress, rtc_shared::error::Error>)
    ensures
        match r {
            Ok(a) => stun_xor_mapped_address(bytes@) == Some((a.ip@, a.port)),
            Err(_) => stun_xor_mapped_address(bytes@) is None,
        },
{
    let mut m = rtc_stun::message::Message::new();
    m.read_from(&mut std::io::BufReader::new(bytes))?;
    let mut x = rtc_stun::xoraddr::XorMappedAddress::default();
    <rtc_stun::xoraddr::XorMappedAddress as rtc_stun::message::Getter>::get_from(&mut x, &m)?;
    Ok(PublicAddress { ip: x.ip.to_string(), port: x.port })
}

/// Whether two byte strings are equal.
fn same_bytes(a: &[u8], b: &[u8]) -> (r: bool)
    ensures
        r == (a@ == b@),
{
    crate::handshake::bytes_equal(a, b)
}

/// Reads the answer `response` to the binding request `request`, as the
/// STUN client that holds only this request does: the client reports an
/// answer only when its transaction id is that of the request, so an
/// answer to another transaction is no answer (`None`); a message that
/// cannot be read, or that carries no mapped address, gives
/// `HandleMessageToStunError`.
pub fn decode_binding_answer(request: &[u8], response: &[u8]) -> (r: Option<
    Result<PublicAddress, EngineError>,
>)
    requires
        request@.len() == 20,
    ensures
        match binding_answer(request@, response@) {
            None => r is None,
            Some(Err(())) => r matches Some(Err(e)) && e is HandleMessageToStunError,
            Some(Ok((ip, port))) => r matches Some(Ok(a)) && a.ip@ == ip && a.port == port,
        },
{
    let id = match transaction_id_of(response) {
        Ok(id) => id,
        Err(e) => return Some(Err(EngineError::HandleMessageToStunError(e))),
    };
    let mut i: usize = 8;
    let mut expected: Vec<u8> = Vec::new();
    while i < 20
        invariant
            8 <= i <= 20,
            request@.len() == 20,
            expected@ == request@.subrange(8, i as int),
        decreases 20 - i,
    {
        expected.push(request[i]);
        i = i + 1;
    }
    if !same_bytes(id.as_slice(), expected.as_slice()) {
        return None;
    }
    match mapped_address_of(response) {
        Ok(a) => Some(Ok(a)),
        Err(e) => Some(Err(EngineError::HandleMessageToStunError(e))),
    }
}

/// What the caller is to do next.
pub enum StunAction {
    /// Bind a UDP socket at this address, give it the read timeout and
    /// connect it to the STUN server.
    Open(String),
    /// Send these bytes to the server.
    Send(Vec<u8>),
    /// Receive one datagram of at most this many bytes.
    Receive(usize),
    /// Stop: this is the probe's result.
    Finish(Result<PublicAddress, EngineError>),
}

/// How the caller's last action went.
pub enum StunEvent {
    /// It succeeded.
    Done,
    /// It failed with this error.
    Failed(EngineError),
    /// This datagram arrived.
    Received(Vec<u8>),
}

/// The probe's progress.
pub enum StunProbe {
    Opening,
    /// The request is on its way.
    Sending { request: Vec<u8> },
    /// Waiting for the answer to `request`.
    Receiving { request: Vec<u8> },
    Done,
}

impl StunProbe {
    /// The events that can follow the action the state asked for.
    pub open spec fn expects(&self, e: &StunEvent) -> bool {
        match self {
            StunProbe::Opening => e is Done || e is Failed,
            StunProbe::Sending { request } => request@.len() == 20 && (e is Done || e is Failed),
            StunProbe::Receiving { request } => request@.len() == 20 && match e {
                StunEvent::Received(b) => b@.len() <= STUN_RECEIVE_BUFFER_LEN,
                StunEvent::Failed(_) => true,
                StunEvent::Done => false,
            },
            StunProbe::Done => false,
        }
    }

    /// One step of the probe: the state after `e` and the next action.
    pub open spec fn step_spec(self, e: StunEvent, next: StunProbe, a: StunAction) -> bool {
        match e {
            StunEvent::Failed(x) => next is Done && a == StunAction::Finish(Err(x)),
            StunEvent::Done => match self {
                StunProbe::Opening => {
                    &&& next matches StunProbe::Sending { request }
                    &&& request@ == binding_request_bytes()
                    &&& a matches StunAction::Send(v)
                    &&& v@ == binding_request_bytes()
                },
                StunProbe::Sending { request } => next == (StunProbe::Receiving { request })
                    && a == StunAction::Receive(STUN_RECEIVE_BUFFER_LEN),
                _ => true,
            },
            StunEvent::Received(b) => match self {
                StunProbe::Receiving { request } => next is Done && match binding_answer(
                    request@,
                    b@,
                ) {
                    None => a matches StunAction::Finish(Err(EngineError::StunNoResponse)),
                    Some(Err(())) => a matches StunAction::Finish(
                        Err(EngineError::HandleMessageToStunError(_)),
                    ),
                    Some(Ok((ip, port))) => a matches StunAction::Finish(Ok(addr)) && addr.ip@
                        == ip && addr.port == port,
                },
                _ => true,
            },
        }
    }

    /// The first state and action of a probe from the local port
    /// `local_port`.
    pub fn start(local_port: u16) -> (r: (StunProbe, StunAction))
        ensures
            r.0 is Opening,
            r.1 matches StunAction::Open(addr) && addr@ == stun_bind_address(local_port),
            r.1 matches StunAction::Open(addr) && addr@ == "0.0.0.0:"@ + decimal(local_port as nat),
    {
        let mut addr = String::from_str("0.0.0.0:");
        let n = decimal_text(local_port as u32);
        addr.append(n.as_str());
        (StunProbe::Opening, StunAction::Open(addr))
    }

    /// Advances the probe by the event `e`.
    pub fn step(self, e: StunEvent) -> (r: (StunProbe, StunAction))
        requires
            self.expects(&e),
        ensures
            self.step_spec(e, r.0, r.1),
    {
        match e {
            StunEvent::Failed(x) => (StunProbe::Done, StunAction::Finish(Err(x))),
            StunEvent::Done => match self {
                StunProbe::Opening => match binding_request() {
                    Ok(request) => {
                        let v = request.clone();
                        (StunProbe::Sending { request }, StunAction::Send(v))
                    },
                    Err(x) => (
                        StunProbe::Done,
                        StunAction::Finish(Err(EngineError::HandleMessageToStunError(x))),
                    ),
                },
                StunProbe::Sending { request } => (
                    StunProbe::Receiving { request },
                    StunAction::Receive(STUN_RECEIVE_BUFFER_LEN),
                ),
                _ => (StunProbe::Done, StunAction::Receive(0)),
            },
            StunEvent::Received(b) => match self {
                StunProbe::Receiving { request } => {
                    match decode_binding_answer(request.as_slice(), b.as_slice()) {
                        None => (StunProbe::Done, StunAction::Finish(Err(EngineError::StunNoResponse))),
                        Some(outcome) => (StunProbe::Done, StunAction::Finish(outcome)),
                    }
                },
                _ => (StunProbe::Done, StunAction::Receive(0)),
            },
        }
    }
}

/// How many steps at most remain before the probe ends.
pub open spec fn probe_stage(s: StunProbe) -> nat {
    match s {
        StunProbe::Opening => 3,
        StunProbe::Sending { .. } => 2,
        StunProbe::Receiving { .. } => 1,
        StunProbe::Done => 0,
    }
}

/// The probe ends: each step moves to a later stage, and a step asks to
/// finish exactly when it reaches the end.
pub proof fn law_probe_ends(s: StunProbe, e: StunEvent, next: StunProbe, a: StunAction)
    requires
        s.expects(&e),
        s.step_spec(e, next, a),
    ensures
        probe_stage(next) < probe_stage(s),
        next is Done <==> a is Finish,
{
}

/// The server's answer to the probe's own request is read for the address
/// it carries: the probe ends with that address exactly when the answer
/// is a STUN message for the request's transaction with a mapped address.
pub proof fn law_answer_to_own_request_gives_its_address(
    request: Vec<u8>,
    answer: Vec<u8>,
    ip: Seq<char>,
    port: u16,
    next: StunProbe,
    a: StunAction,
)
    requires
        request@ == binding_request_bytes(),
        answer@.len() <= STUN_RECEIVE_BUFFER_LEN,
        stun_transaction_id(answer@) == Some(request_transaction_id(request@)),
        stun_xor_mapped_address(answer@) == Some((ip, port)),
        (StunProbe::Receiving { request }).step_spec(StunEvent::Received(answer), next, a),
    ensures
        a matches StunAction::Finish(Ok(addr)) && addr.ip@ == ip && addr.port == port,
{
}

/// An answer is taken only for the probe's own transaction: when the
/// answer reads as a STUN message whose transaction id differs from bytes
/// 8 to 20 of the request in any byte, the probe finishes with
/// `StunNoResponse`; when the id is the request's and the message carries
/// a mapped address, the probe finishes with that address; an answer that
/// does not read as a STUN message gives `HandleMessageToStunError`.
pub proof fn law_only_the_own_transaction_is_answered(
    request: Vec<u8>,
    answer: Vec<u8>,
    next: StunProbe,
    a: StunAction,
)
    requires
        request@.len() == 20,
        answer@.len() <= STUN_RECEIVE_BUFFER_LEN,
        (StunProbe::Receiving { request }).step_spec(StunEvent::Received(answer), next, a),
    ensures
        next is Done,
        stun_transaction_id(answer@) is None ==> a matches StunAction::Finish(
            Err(EngineError::HandleMessageToStunError(_)),
        ),
        forall|id: Seq<u8>|
            stun_transaction_id(answer@) == Some(id) && id != request@.subrange(8, 20) ==> a
                matches StunAction::Finish(Err(EngineError::StunNoResponse)),
        forall|ip: Seq<char>, port: u16|
            stun_transaction_id(answer@) == Some(request@.subrange(8, 20))
                && stun_xor_mapped_address(answer@) == Some((ip, port)) ==> (a matches StunAction::Finish(
                Ok(addr)) && addr.ip@ == ip && addr.port == port),
{
}

} // verus!
