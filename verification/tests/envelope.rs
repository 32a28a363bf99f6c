use chat_relay::clock::seconds_since_epoch;
use chat_relay::{Msg, MsgData};
use std::time::{Duration, SystemTime, UNIX_EPOCH};

// 2020-01-01T00:00:00Z; any clock that this runs under reads later.
const EARLY: u64 = 1_577_836_800;

fn unix_seconds() -> u64 {
    SystemTime::now().duration_since(UNIX_EPOCH).unwrap().as_secs()
}

#[test]
fn stamped_keeps_every_part() {
    let msg = Msg::stamped("room1".to_string(), "alice".to_string(), 42, MsgData::Join);
    assert_eq!(msg.room, "room1");
    assert_eq!(msg.username, "alice");
    assert_eq!(msg.timestamp, 42);
    assert_eq!(msg.data, MsgData::Join);
}

#[test]
fn stamped_takes_any_timestamp() {
    let first = Msg::stamped("r".to_string(), "u".to_string(), 0, MsgData::Leave);
    let last = Msg::stamped("r".to_string(), "u".to_string(), u64::MAX, MsgData::Leave);
    assert_eq!(first.timestamp, 0);
    assert_eq!(last.timestamp, u64::MAX);
    assert_ne!(first, last);
}

#[test]
fn new_keeps_room_sender_and_payload() {
    let msg = Msg::new(
        "room1".to_string(),
        "alice".to_string(),
        MsgData::Message("hello world".to_string()),
    );
    assert_eq!(msg.room, "room1");
    assert_eq!(msg.username, "alice");
    assert_eq!(msg.data, MsgData::Message("hello world".to_string()));
}

#[test]
fn new_stamps_with_the_wall_clock() {
    let before = unix_seconds();
    let msg = Msg::new("room1".to_string(), "alice".to_string(), MsgData::Join);
    let after = unix_seconds();
    assert!(before >= EARLY);
    assert!(before <= msg.timestamp);
    assert!(msg.timestamp <= after);
}

#[test]
fn join_builds_a_join_envelope() {
    let msg = Msg::join("room1", "alice");
    assert_eq!(msg.room, "room1");
    assert_eq!(msg.username, "alice");
    assert_eq!(msg.data, MsgData::Join);
    assert!(msg.timestamp >= EARLY);
}

#[test]
fn leave_builds_a_leave_envelope() {
    let msg = Msg::leave("room1", "alice");
    assert_eq!(msg.room, "room1");
    assert_eq!(msg.username, "alice");
    assert_eq!(msg.data, MsgData::Leave);
    assert!(msg.timestamp >= EARLY);
}

#[test]
fn message_builds_a_text_envelope() {
    let msg = Msg::message("room1", "alice", "hello world");
    assert_eq!(msg.room, "room1");
    assert_eq!(msg.username, "alice");
    assert_eq!(msg.data, MsgData::Message("hello world".to_string()));
    assert!(msg.timestamp >= EARLY);
}

#[test]
fn join_and_leave_keep_room_and_sender_apart() {
    let join = Msg::join("lobby", "room1");
    assert_eq!(join.room, "lobby");
    assert_eq!(join.username, "room1");
    let leave = Msg::leave("room1", "lobby");
    assert_eq!(leave.room, "room1");
    assert_eq!(leave.username, "lobby");
}

#[test]
fn message_accepts_empty_and_non_ascii_text() {
    let empty = Msg::message("room1", "alice", "");
    assert_eq!(empty.data, MsgData::Message(String::new()));
    let wide = Msg::message("房间", "爱丽丝", "你好, world");
    assert_eq!(wide.room, "房间");
    assert_eq!(wide.username, "爱丽丝");
    assert_eq!(wide.data, MsgData::Message("你好, world".to_string()));
}

#[test]
fn equality_is_structural() {
    let a = Msg::stamped("room1".to_string(), "alice".to_string(), 7, MsgData::Join);
    let b = Msg::stamped("room1".to_string(), "alice".to_string(), 7, MsgData::Join);
    assert_eq!(a, b);
    assert_ne!(a, Msg::stamped("room2".to_string(), "alice".to_string(), 7, MsgData::Join));
    assert_ne!(a, Msg::stamped("room1".to_string(), "bob".to_string(), 7, MsgData::Join));
    assert_ne!(a, Msg::stamped("room1".to_string(), "alice".to_string(), 8, MsgData::Join));
    assert_ne!(a, Msg::stamped("room1".to_string(), "alice".to_string(), 7, MsgData::Leave));
    assert_ne!(MsgData::Message("a".to_string()), MsgData::Message("b".to_string()));
}

#[test]
fn clone_is_equal_to_its_source() {
    let msg = Msg::stamped(
        "room1".to_string(),
        "alice".to_string(),
        7,
        MsgData::Message("hello".to_string()),
    );
    assert_eq!(msg.clone(), msg);
    assert_eq!(MsgData::Join.clone(), MsgData::Join);
    assert_eq!(MsgData::Leave.clone(), MsgData::Leave);
}

#[test]
fn a_measurement_reads_as_its_whole_seconds() {
    let later = UNIX_EPOCH + Duration::new(90, 999_999_999);
    assert_eq!(seconds_since_epoch(later.duration_since(UNIX_EPOCH)), 90);
    let much_later = UNIX_EPOCH + Duration::from_secs(1_700_000_000);
    assert_eq!(seconds_since_epoch(much_later.duration_since(UNIX_EPOCH)), 1_700_000_000);
    assert_eq!(seconds_since_epoch(UNIX_EPOCH.duration_since(UNIX_EPOCH)), 0);
}

#[test]
fn a_clock_before_the_epoch_reads_as_the_epoch() {
    let later = UNIX_EPOCH + Duration::from_secs(5);
    assert_eq!(seconds_since_epoch(UNIX_EPOCH.duration_since(later)), 0);
}
