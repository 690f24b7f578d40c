//! The host's session after it has created a room: it accepts one
//! connection on the room's port, checks the digest the peer sends, and
//! marks the room connected when the check succeeds. Nothing after the
//! first connection is accepted.
use vstd::prelude::*;
use crate::handshake::{
    DigestCheck, ServerAction, ServerEvent, StoreAccess, DIGEST_LEN, digest_check_stage,
    passcode_digest, reply_byte, server_store_access,
};
use crate::rooms::{is_new_room, marked_connected};
use crate::types::{EngineError, Room};

verus! {

/// What the host's session asks for next.
pub enum HostAction {
    /// Wait for one connection on the room's listener.
    Accept,
    /// Carry out this step of the digest check on the accepted connection.
    Check(ServerAction),
    /// Open the room store and mark the room connected.
    MarkConnected,
    /// Stop: the session is over, with the error that ended it, if any.
    Stop(Option<EngineError>),
}

/// How the session's last action went.
pub enum HostEvent {
    /// A peer connected.
    Accepted,
    /// Accepting failed.
    AcceptFailed,
    /// This is how the step of the digest check went.
    Checked(ServerEvent),
    /// The room is marked connected.
    Marked,
    /// Marking the room failed with this error.
    MarkFailed(EngineError),
}

/// The host's session.
pub enum HostSession {
    /// Waiting for a peer to connect.
    Accepting,
    /// Checking the connected peer's digest.
    Checking { check: DigestCheck },
    /// The peer passed; waiting for the room to be marked connected.
    Marking,
    /// The session is over.
    Done,
}

/// How the session's action `a` touches the room store: marking the room
/// writes it; a step of the digest check touches it as that step does.
pub open spec fn host_store_access(a: HostAction) -> StoreAccess {
    match a {
        HostAction::Check(x) => server_store_access(x),
        HostAction::MarkConnected => StoreAccess::Written,
        _ => StoreAccess::Untouched,
    }
}

impl HostSession {
    /// The events that can follow the action the state asked for.
    pub open spec fn expects(&self, e: &HostEvent) -> bool {
        match self {
            HostSession::Accepting => e is Accepted || e is AcceptFailed,
            HostSession::Checking { check } => match e {
                HostEvent::Checked(x) => check.expects(x),
                _ => false,
            },
            HostSession::Marking => e is Marked || e is MarkFailed,
            HostSession::Done => false,
        }
    }

    /// One step of the session: the state after `e` and the next action.
    /// A step of the digest check that ends it with `Ok` leads to marking
    /// the room, one that ends it with an error stops the session with
    /// that error, and any other is passed on.
    pub open spec fn step_spec(self, e: HostEvent, next: HostSession, a: HostAction) -> bool {
        match self {
            HostSession::Accepting => match e {
                HostEvent::Accepted => next == (HostSession::Checking {
                    check: DigestCheck::ReadingDigest,
                }) && a == HostAction::Check(ServerAction::Read(DIGEST_LEN)),
                HostEvent::AcceptFailed => next is Done && a == HostAction::Stop(None),
                _ => true,
            },
            HostSession::Checking { check } => match e {
                HostEvent::Checked(x) => match a {
                    HostAction::Check(y) => {
                        &&& !(y is Finish)
                        &&& next matches HostSession::Checking { check: c }
                        &&& check.step_spec(x, c, y)
                    },
                    HostAction::MarkConnected => next is Marking && check.step_spec(
                        x,
                        DigestCheck::Done,
                        ServerAction::Finish(Ok(true)),
                    ),
                    HostAction::Stop(Some(err)) => next is Done && check.step_spec(
                        x,
                        DigestCheck::Done,
                        ServerAction::Finish(Err(err)),
                    ),
                    _ => false,
                },
                _ => true,
            },
            HostSession::Marking => match e {
                HostEvent::Marked => next is Done && a == HostAction::Stop(None),
                HostEvent::MarkFailed(err) => next is Done && a == HostAction::Stop(Some(err)),
                _ => true,
            },
            HostSession::Done => true,
        }
    }

    /// The first state and action: accept one connection.
    pub fn start() -> (r: (HostSession, HostAction))
        ensures
            r.0 is Accepting,
            r.1 is Accept,
    {
        (HostSession::Accepting, HostAction::Accept)
    }

    /// Advances the session by the event `e`.
    pub fn step(self, e: HostEvent) -> (r: (HostSession, HostAction))
        requires
            self.expects(&e),
        ensures
            self.step_spec(e, r.0, r.1),
    {
        match self {
            HostSession::Accepting => match e {
                HostEvent::Accepted => {
                    let (check, action) = DigestCheck::start();
                    (HostSession::Checking { check }, HostAction::Check(action))
                },
                _ => (HostSession::Done, HostAction::Stop(None)),
            },
            HostSession::Checking { check } => match e {
                HostEvent::Checked(x) => {
                    let (c, y) = check.step(x);
                    match y {
                        ServerAction::Finish(Ok(_)) => (HostSession::Marking, HostAction::MarkConnected),
                        ServerAction::Finish(Err(err)) => (
                            HostSession::Done,
                            HostAction::Stop(Some(err)),
                        ),
                        _ => (HostSession::Checking { check: c }, HostAction::Check(y)),
                    }
                },
                _ => (HostSession::Done, HostAction::Stop(None)),
            },
            HostSession::Marking => match e {
                HostEvent::MarkFailed(err) => (HostSession::Done, HostAction::Stop(Some(err))),
                _ => (HostSession::Done, HostAction::Stop(None)),
            },
            HostSession::Done => (HostSession::Done, HostAction::Stop(None)),
        }
    }
}

/// How many steps at most remain before the session ends.
pub open spec fn host_stage(s: HostSession) -> nat {
    match s {
        HostSession::Accepting => 5,
        HostSession::Checking { check } => 1 + digest_check_stage(check),
        HostSession::Marking => 1,
        HostSession::Done => 0,
    }
}

/// The session accepts one connection only: no step asks to accept again.
/// Each step moves to a later stage, and a step asks to stop exactly when
/// the session ends, after which no event is expected.
pub proof fn law_host_accepts_one_connection(
    s: HostSession,
    e: HostEvent,
    next: HostSession,
    a: HostAction,
)
    requires
        s.expects(&e),
        s.step_spec(e, next, a),
    ensures
        !(a is Accept),
        host_stage(next) < host_stage(s),
        next is Done <==> a is Stop,
        !HostSession::Done.expects(&e),
{
}

/// The first peer to connect decides the room: when the room was created
/// with `passcode` (not connected) and the peer sends the 32 bytes `h`,
/// the host answers 1 and then marks the room connected exactly when `h`
/// is the digest of `passcode`; otherwise it answers 0 and stops with
/// `InvalidPasscode`, never writing the store, so the room stays
/// unconnected. Before the answer no step writes the store. The room as
/// marked is the same room with `connected` set.
pub proof fn law_room_is_marked_connected_exactly_for_its_passcode(
    room: Room,
    room_id: Seq<char>,
    passcode: Seq<char>,
    peer_ip: Seq<char>,
    peer_port: u16,
    created_at: std::time::SystemTime,
    h: Vec<u8>,
    s1: HostSession,
    a1: HostAction,
    s2: HostSession,
    a2: HostAction,
    s3: HostSession,
    a3: HostAction,
    s4: HostSession,
    a4: HostAction,
    marked: Room,
)
    requires
        is_new_room(room, room_id, passcode, peer_ip, peer_port, created_at),
        h@.len() == DIGEST_LEN,
        HostSession::Accepting.step_spec(HostEvent::Accepted, s1, a1),
        s1.step_spec(HostEvent::Checked(ServerEvent::Received(h)), s2, a2),
        s2.step_spec(HostEvent::Checked(ServerEvent::RoomFound(room.passcode)), s3, a3),
        s3.step_spec(HostEvent::Checked(ServerEvent::ReplySent), s4, a4),
    ensures
        !room.connected,
        a1 == HostAction::Check(ServerAction::Read(DIGEST_LEN)),
        a2 == HostAction::Check(ServerAction::LookUpRoom),
        a3 == HostAction::Check(ServerAction::SendReply(reply_byte(h@ == passcode_digest(passcode)))),
        host_store_access(a1) != StoreAccess::Written,
        host_store_access(a2) != StoreAccess::Written,
        host_store_access(a3) != StoreAccess::Written,
        (a4 is MarkConnected) <==> h@ == passcode_digest(passcode),
        (host_store_access(a4) == StoreAccess::Written) <==> h@ == passcode_digest(passcode),
        h@ != passcode_digest(passcode) ==> (a4 matches HostAction::Stop(Some(err))
            && err is InvalidPasscode),
        s1.expects(&HostEvent::Checked(ServerEvent::Received(h))),
        marked_connected(room, marked) ==> marked.connected && marked.room_id == room.room_id
            && marked.passcode == room.passcode,
{
}

} // verus!
