use construct_tui::bridge::{
    read_or_absent, refresh_delay, refresh_outcome, BridgeEvent, TokenRefreshMsg, TuiBridge,
};
use construct_tui::storage::{Storage, StorageError};
use construct_tui::streaming::StreamCmd;

fn bridge() -> TuiBridge {
    TuiBridge::new(Storage::open_in_memory().unwrap())
}

#[test]
fn incoming_message_is_stored_and_shown() {
    let mut b = bridge();
    match b.on_message_decrypted("alice", "m1", "hi", 42).unwrap() {
        BridgeEvent::NewMessage { peer_id, message_id, text, timestamp_ms } => {
            assert_eq!(peer_id, "alice");
            assert_eq!(message_id, "m1");
            assert_eq!(text, "hi");
            assert_eq!(timestamp_ms, 42);
        }
        _ => panic!("not a new message"),
    }
    let msgs = b.load_messages("alice", 10).unwrap();
    assert_eq!(msgs.len(), 1);
    assert_eq!(msgs[0].direction, "received");
    assert_eq!(msgs[0].delivery_status, "delivered");
}

#[test]
fn outgoing_message_is_delivered_once_acknowledged() {
    let mut b = bridge();
    b.on_message_sent("alice", "m1", "hi", 42).unwrap();
    let before = b.load_messages("alice", 10).unwrap();
    assert_eq!(before[0].direction, "sent");
    assert_eq!(before[0].delivery_status, "");
    match b.on_ack("m1").unwrap() {
        BridgeEvent::MessageDelivered { message_id } => assert_eq!(message_id, "m1"),
        _ => panic!("not a delivery"),
    }
    let after = b.load_messages("alice", 10).unwrap();
    assert_eq!(after[0].direction, "sent");
    assert_eq!(after[0].text, "hi");
    assert_eq!(after[0].delivery_status, "delivered");
}

#[test]
fn peer_is_subscribed_to() {
    match bridge().subscribe("alice".to_string()) {
        StreamCmd::Subscribe(users, cursor) => {
            assert_eq!(users, vec!["alice"]);
            assert!(cursor.is_none());
        }
        _ => panic!("not a subscription"),
    }
}

#[test]
fn core_reads_what_it_stored() {
    let mut b = bridge();
    assert_eq!(b.load_from_secure_store("k".to_string()).unwrap(), None);
    b.save_to_secure_store("k".to_string(), vec![1, 2, 3]).unwrap();
    assert_eq!(b.load_from_secure_store("k".to_string()).unwrap(), Some(vec![1, 2, 3]));
    assert_eq!(b.query_record("t".to_string(), "{}".to_string()).unwrap(), None);
    b.persist_record("t".to_string(), "[1]".to_string()).unwrap();
    b.persist_record("t".to_string(), "[2]".to_string()).unwrap();
    let last = b.query_record("t".to_string(), "{}".to_string()).unwrap();
    assert_eq!(last, Some("[2]".to_string()));
}

#[test]
fn unreadable_values_count_as_absent() {
    assert_eq!(read_or_absent(Ok(Some(1))), Some(1));
    assert_eq!(read_or_absent::<i32>(Ok(None)), None);
    assert_eq!(read_or_absent::<i32>(Err(StorageError::Row)), None);
}

#[test]
fn tokens_are_refreshed_five_minutes_ahead() {
    assert_eq!(refresh_delay(10_000, 9_000), 700);
    assert_eq!(refresh_delay(10_000, 9_700), 0);
    assert_eq!(refresh_delay(10_000, 20_000), 0);
    assert_eq!(refresh_delay(i64::MIN, 0), 0);
    assert_eq!(refresh_delay(i64::MAX, 0), (i64::MAX - 300) as u64);
}

#[test]
fn refresh_is_reported() {
    match refresh_outcome(Ok(("a".to_string(), Some("r".to_string()), 7))) {
        TokenRefreshMsg::Refreshed { access_token, refresh_token, expires_at } => {
            assert_eq!((access_token.as_str(), refresh_token.as_str(), expires_at), ("a", "r", 7));
        }
        _ => panic!("not refreshed"),
    }
    match refresh_outcome(Ok(("a".to_string(), None, 7))) {
        TokenRefreshMsg::Refreshed { refresh_token, .. } => assert_eq!(refresh_token, ""),
        _ => panic!("not refreshed"),
    }
    assert!(matches!(
        refresh_outcome(Err("no".to_string())),
        TokenRefreshMsg::Failed(e) if e == "no"
    ));
}
