use engine::rooms::{
    collect_rooms, db_removal_report, FileRemoval, connected_room, create_room_endpoint, join_room_endpoint, new_room,
    room_db_path,
};
use engine::{EngineError, Room};
use std::time::{Duration, SystemTime};

fn room(id: &str) -> Room {
    new_room(
        id.to_string(),
        "pass".to_string(),
        "10.0.0.1".to_string(),
        4000,
        SystemTime::UNIX_EPOCH + Duration::from_secs(1_700_000_000),
    )
}

#[test]
fn new_room_starts_empty_and_unconnected() {
    let r = room("r1");
    assert_eq!(r.room_id, "r1");
    assert_eq!(r.passcode, "pass");
    assert_eq!(r.peer_ip, "10.0.0.1");
    assert_eq!(r.peer_port, 4000);
    assert_eq!(r.file_name, "");
    assert_eq!(r.file_hash, "");
    assert_eq!((r.sent, r.total), (0, 0));
    assert_eq!(r.created_at, SystemTime::UNIX_EPOCH + Duration::from_secs(1_700_000_000));
    assert!(!r.connected);
}

#[test]
fn marking_connected_changes_only_the_flag() {
    let before = room("r2");
    let after = connected_room(Some(room("r2")), "r2").unwrap();
    assert!(after.connected);
    assert_eq!(after.room_id, before.room_id);
    assert_eq!(after.passcode, before.passcode);
    assert_eq!(after.peer_ip, before.peer_ip);
    assert_eq!(after.peer_port, before.peer_port);
    assert_eq!(after.created_at, before.created_at);
}

#[test]
fn marking_a_missing_room_names_it() {
    match connected_room(None, "abc123") {
        Err(EngineError::NotFound(m)) => assert_eq!(m, "room abc123 not found"),
        _ => panic!("expected NotFound"),
    }
}

#[test]
fn unreadable_entries_are_skipped_in_order() {
    let rooms = collect_rooms(vec![Some(room("a")), None, Some(room("b")), None, Some(room("c"))]);
    let ids: Vec<&str> = rooms.iter().map(|r| r.room_id.as_str()).collect();
    assert_eq!(ids, vec!["a", "b", "c"]);
    assert!(collect_rooms(vec![None, None]).is_empty());
    assert!(collect_rooms(vec![]).is_empty());
}

#[test]
fn room_database_file_is_named_after_the_port() {
    assert_eq!(room_db_path(50002), "room_50002.redb");
    assert_eq!(room_db_path(0), "room_0.redb");
    assert_eq!(room_db_path(65535), "room_65535.redb");
}

#[test]
fn backend_endpoints() {
    assert_eq!(create_room_endpoint("https://b.example"), "https://b.example/api/v1/room/create");
    assert_eq!(
        join_room_endpoint("https://b.example", "r42"),
        "https://b.example/api/v1/room/join/r42"
    );
}

#[test]
fn clearing_the_database_reports_each_outcome() {
    assert_eq!(
        db_removal_report(FileRemoval::Removed, "\"/tmp/room_1.redb\"").unwrap(),
        "Deleted: \"/tmp/room_1.redb\""
    );
    assert_eq!(
        db_removal_report(FileRemoval::Missing, "\"/tmp/room_1.redb\"").unwrap(),
        "No file found at: \"/tmp/room_1.redb\""
    );
    match db_removal_report(FileRemoval::Failed("permission denied".to_string()), "\"/x\"") {
        Err(EngineError::NotFound(m)) => assert_eq!(m, "Failed to delete \"/x\": permission denied"),
        _ => panic!("expected NotFound"),
    }
}
