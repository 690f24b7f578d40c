//! Room records as the host keeps them, and the text that locates them.
use vstd::prelude::*;
use crate::text::{decimal, decimal_text};
use crate::types::{EngineError, Room};

verus! {

/// A room just created: nothing offered yet, no transfer, nobody connected.
pub open spec fn is_new_room(
    r: Room,
    room_id: Seq<char>,
    passcode: Seq<char>,
    peer_ip: Seq<char>,
    peer_port: u16,
    created_at: std::time::SystemTime,
) -> bool {
    &&& r.room_id@ == room_id
    &&& r.passcode@ == passcode
    &&& r.peer_ip@ == peer_ip
    &&& r.peer_port == peer_port
    &&& r.file_name@ == Seq::<char>::empty()
    &&& r.file_hash@ == Seq::<char>::empty()
    &&& r.sent == 0
    &&& r.total == 0
    &&& r.created_at == created_at
    &&& !r.connected
}

/// The record of a room that the backend has just created with the id
/// `room_id`, for a host reachable at `peer_ip:peer_port`.
pub fn new_room(
    room_id: String,
    passcode: String,
    peer_ip: String,
    peer_port: u16,
    created_at: std::time::SystemTime,
) -> (r: Room)
    ensures
        is_new_room(r, room_id@, passcode@, peer_ip@, peer_port, created_at),
        r.room_id@ == room_id@ && r.passcode@ == passcode@ && r.peer_ip@ == peer_ip@,
        r.peer_port == peer_port && r.created_at == created_at,
        r.file_name@.len() == 0 && r.file_hash@.len() == 0 && r.sent == 0 && r.total == 0,
        r.connected == false,
{
    Room {
        room_id,
        passcode,
        peer_ip,
        peer_port,
        file_name: String::new(),
        file_hash: String::new(),
        total: 0,
        sent: 0,
        created_at,
        connected: false,
    }
}

/// The same room, marked as having a connected peer.
pub open spec fn marked_connected(before: Room, after: Room) -> bool {
    after == Room { connected: true, ..before }
}

/// Marks the room that was looked up under `room_id` as connected; a room
/// that was not found gives `NotFound` with a message naming the id.
pub fn connected_room(found: Option<Room>, room_id: &str) -> (r: Result<Room, EngineError>)
    ensures
        found matches Some(before) ==> (r matches Ok(after) && marked_connected(before, after)),
        found matches Some(before) ==> (r matches Ok(after) && {
            &&& after.connected
            &&& after.room_id == before.room_id
            &&& after.passcode == before.passcode
            &&& after.peer_ip == before.peer_ip
            &&& after.peer_port == before.peer_port
            &&& after.file_name == before.file_name
            &&& after.file_hash == before.file_hash
            &&& after.sent == before.sent
            &&& after.total == before.total
            &&& after.created_at == before.created_at
        }),
        found is None ==> (r matches Err(e) && e matches EngineError::NotFound(m) && m@ == "room "@
            + room_id@ + " not found"@),
{
    match found {
        Some(mut room) => {
            room.connected = true;
            Ok(room)
        },
        None => {
            let mut m = String::from_str("room ");
            m.append(room_id);
            m.append(" not found");
            Err(EngineError::NotFound(m))
        },
    }
}

/// The rooms among `entries`, in order: entries that could not be read
/// are `None` and are left out.
pub open spec fn readable_rooms(entries: Seq<Option<Room>>) -> Seq<Room>
    decreases entries.len(),
{
    if entries.len() == 0 {
        Seq::empty()
    } else {
        let rest = readable_rooms(entries.drop_last());
        match entries.last() {
            Some(r) => rest.push(r),
            None => rest,
        }
    }
}

/// The rooms among `entries`, in order, leaving out those that could not
/// be read.
pub fn collect_rooms(entries: Vec<Option<Room>>) -> (rooms: Vec<Room>)
    ensures
        rooms@ == readable_rooms(entries@),
        rooms@ == entries@.filter_map(|e: Option<Room>| e),
{
    let ghost all = entries@;
    let mut rooms: Vec<Room> = Vec::new();
    for e in it: entries
        invariant
            all == it.seq(),
            rooms@ == readable_rooms(all.take(it.index() as int)),
    {
        assert(all.take(it.index() as int + 1).drop_last() =~= all.take(it.index() as int));
        match e {
            Some(room) => rooms.push(room),
            None => {},
        }
    }
    assert(all.take(all.len() as int) =~= all);
    proof {
        law_every_readable_entry_is_listed(all);
    }
    rooms
}

/// Every entry that could be read is listed, whatever it holds, in the
/// order of the entries, and nothing else is: the listing is the rooms of
/// the `Some` entries, as `filter_map` keeps them.
pub proof fn law_every_readable_entry_is_listed(entries: Seq<Option<Room>>)
    ensures
        readable_rooms(entries) == entries.filter_map(|e: Option<Room>| e),
    decreases entries.len(),
{
    if entries.len() > 0 {
        let rest = entries.drop_last();
        law_every_readable_entry_is_listed(rest);
        match entries.last() {
            Some(r) => {
                assert(rest.filter_map(|e: Option<Room>| e).push(r) =~= rest.filter_map(
                    |e: Option<Room>| e,
                ) + seq![r]);
            },
            None => {},
        }
    }
}

/// Marking a room connected sets `connected`, whatever it was, and keeps
/// every other field.
pub proof fn law_marking_sets_connected_and_keeps_the_rest(before: Room, after: Room)
    requires
        marked_connected(before, after),
    ensures
        after.connected,
        after.room_id == before.room_id,
        after.passcode == before.passcode,
        after.peer_ip == before.peer_ip,
        after.peer_port == before.peer_port,
        after.file_name == before.file_name,
        after.file_hash == before.file_hash,
        after.sent == before.sent,
        after.total == before.total,
        after.created_at == before.created_at,
{
}

/// The database file of the engine listening on `port`.
pub open spec fn room_db_file(port: u16) -> Seq<char> {
    "room_"@ + decimal(port as nat) + ".redb"@
}

/// The name of the database file of the engine listening on `port`.
pub fn room_db_path(port: u16) -> (p: String)
    ensures
        p@ == room_db_file(port),
        p@ == "room_"@ + decimal(port as nat) + ".redb"@,
{
    let mut p = String::from_str("room_");
    let n = decimal_text(port as u32);
    p.append(n.as_str());
    p.append(".redb");
    p
}

/// The backend's endpoint for creating a room.
pub fn create_room_endpoint(backend_url: &str) -> (u: String)
    ensures
        u@ == backend_url@ + "/api/v1/room/create"@,
{
    let mut u = String::from_str(backend_url);
    u.append("/api/v1/room/create");
    u
}

/// The backend's endpoint for joining the room `room_id`.
pub fn join_room_endpoint(backend_url: &str, room_id: &str) -> (u: String)
    ensures
        u@ == backend_url@ + "/api/v1/room/join/"@ + room_id@,
{
    let mut u = String::from_str(backend_url);
    u.append("/api/v1/room/join/");
    u.append(room_id);
    u
}

/// How removing the room database file went.
pub enum FileRemoval {
    Removed,
    /// There was no file to remove.
    Missing,
    /// Removing failed; the text describes why.
    Failed(String),
}

/// The report on clearing the room database at `shown_path` (the path as
/// it is shown to a user): a removed or missing file is no error.
pub fn db_removal_report(removal: FileRemoval, shown_path: &str) -> (r: Result<String, EngineError>)
    ensures
        removal is Removed ==> (r matches Ok(m) && m@ == "Deleted: "@ + shown_path@),
        removal is Missing ==> (r matches Ok(m) && m@ == "No file found at: "@ + shown_path@),
        removal matches FileRemoval::Failed(d) ==> (r matches Err(e)
            && e matches EngineError::NotFound(m)
            && m@ == "Failed to delete "@ + shown_path@ + ": "@ + d@),
{
    match removal {
        FileRemoval::Removed => {
            let mut m = String::from_str("Deleted: ");
            m.append(shown_path);
            Ok(m)
        },
        FileRemoval::Missing => {
            let mut m = String::from_str("No file found at: ");
            m.append(shown_path);
            Ok(m)
        },
        FileRemoval::Failed(d) => {
            let mut m = String::from_str("Failed to delete ");
            m.append(shown_path);
            m.append(": ");
            m.append(d.as_str());
            Err(EngineError::NotFound(m))
        },
    }
}

} // verus!
