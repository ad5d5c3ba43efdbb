use construct_tui::storage::{
    acks_from, blob_from, contact_from, contacts_from, count_from, done, messages_from, text_from,
    Storage, StorageError, StoredContact, StoredMessage, Value,
};

fn message(id: &str, peer_id: &str, text: &str, timestamp_ms: i64) -> StoredMessage {
    StoredMessage {
        id: id.to_string(),
        peer_id: peer_id.to_string(),
        text: text.to_string(),
        direction: "received".to_string(),
        timestamp_ms,
        delivery_status: "".to_string(),
    }
}

fn contact(user_id: &str, display_name: &str) -> StoredContact {
    StoredContact {
        user_id: user_id.to_string(),
        display_name: display_name.to_string(),
        identity_key_b64: format!("key of {user_id}"),
    }
}

fn text(s: &str) -> Value {
    Value::Text(s.to_string())
}

#[test]
fn roundtrip_message() {
    let mut s = Storage::open_in_memory().unwrap();
    let msg = StoredMessage {
        id: "msg-1".into(),
        peer_id: "alice".into(),
        text: "hello".into(),
        direction: "sent".into(),
        timestamp_ms: 1_000_000,
        delivery_status: "".into(),
    };
    s.store_message(&msg).unwrap();
    let msgs = s.get_messages("alice", 10).unwrap();
    assert_eq!(msgs.len(), 1);
    assert_eq!(msgs[0].text, "hello");
}

#[test]
fn ack_store_drain() {
    let mut s = Storage::open_in_memory().unwrap();
    s.store_ack("m1", 100).unwrap();
    s.store_ack("m2", 200).unwrap();
    let acks = s.pop_all_acks().unwrap();
    assert_eq!(acks.len(), 2);
    assert!(s.pop_all_acks().unwrap().is_empty());
}

#[test]
fn secure_store_roundtrip() {
    let mut s = Storage::open_in_memory().unwrap();
    s.secure_save("session_key", b"secret").unwrap();
    let val = s.secure_load("session_key").unwrap();
    assert_eq!(val.as_deref(), Some(b"secret".as_ref()));
}

#[test]
fn messages_come_in_chronological_order() {
    let mut s = Storage::open_in_memory().unwrap();
    s.store_message(&message("b", "alice", "second", 20)).unwrap();
    s.store_message(&message("a", "alice", "first", 10)).unwrap();
    s.store_message(&message("c", "alice", "third", 30)).unwrap();
    s.store_message(&message("x", "bob", "other", 25)).unwrap();
    let texts = |msgs: Vec<StoredMessage>| -> Vec<String> {
        msgs.into_iter().map(|m| m.text).collect()
    };
    assert_eq!(texts(s.get_messages("alice", 50).unwrap()), vec!["first", "second", "third"]);
    assert_eq!(texts(s.get_messages("alice", 2).unwrap()), vec!["second", "third"]);
    assert!(s.get_messages("alice", 0).unwrap().is_empty());
    assert!(s.get_messages("carol", 50).unwrap().is_empty());
}

#[test]
fn message_is_replaced_under_its_id() {
    let mut s = Storage::open_in_memory().unwrap();
    s.store_message(&message("a", "alice", "first", 10)).unwrap();
    s.store_message(&message("a", "bob", "again", 11)).unwrap();
    assert!(s.get_messages("alice", 50).unwrap().is_empty());
    let msgs = s.get_messages("bob", 50).unwrap();
    assert_eq!(msgs.len(), 1);
    assert_eq!(msgs[0].id, "a");
    assert_eq!(msgs[0].peer_id, "bob");
    assert_eq!(msgs[0].text, "again");
    assert_eq!(msgs[0].direction, "received");
    assert_eq!(msgs[0].timestamp_ms, 11);
    assert_eq!(msgs[0].delivery_status, "");
}

#[test]
fn unknown_direction_is_refused() {
    let mut s = Storage::open_in_memory().unwrap();
    let mut msg = message("a", "alice", "text", 10);
    msg.direction = "lost".to_string();
    assert!(matches!(s.store_message(&msg), Err(StorageError::Sqlite(_))));
    assert!(s.get_messages("alice", 50).unwrap().is_empty());
    msg.direction = "pending".to_string();
    s.store_message(&msg).unwrap();
    assert_eq!(s.get_messages("alice", 50).unwrap().len(), 1);
}

#[test]
fn delivery_is_marked_on_one_message() {
    let mut s = Storage::open_in_memory().unwrap();
    s.store_message(&message("a", "alice", "first", 10)).unwrap();
    s.store_message(&message("b", "alice", "second", 20)).unwrap();
    s.mark_delivered("b").unwrap();
    s.mark_delivered("nothing").unwrap();
    let msgs = s.get_messages("alice", 50).unwrap();
    assert_eq!(msgs[0].delivery_status, "");
    assert_eq!(msgs[1].delivery_status, "delivered");
    assert_eq!(msgs[1].text, "second");
}

#[test]
fn contacts_are_ordered_by_name() {
    let mut s = Storage::open_in_memory().unwrap();
    s.upsert_contact(&contact("1", "carol")).unwrap();
    s.upsert_contact(&contact("2", "alice")).unwrap();
    s.upsert_contact(&contact("3", "Bob")).unwrap();
    s.upsert_contact(&contact("1", "anna")).unwrap();
    let names: Vec<String> =
        s.get_contacts().unwrap().into_iter().map(|c| c.display_name).collect();
    assert_eq!(names, vec!["Bob", "alice", "anna"]);
    let found = s.get_contact_by_id("3").unwrap().unwrap();
    assert_eq!(found.user_id, "3");
    assert_eq!(found.display_name, "Bob");
    assert_eq!(found.identity_key_b64, "key of 3");
    assert!(s.get_contact_by_id("4").unwrap().is_none());
}

#[test]
fn first_ack_of_a_message_is_kept() {
    let mut s = Storage::open_in_memory().unwrap();
    s.store_ack("m1", 100).unwrap();
    s.store_ack("m1", 900).unwrap();
    assert!(s.has_ack("m1").unwrap());
    assert!(!s.has_ack("m2").unwrap());
    assert_eq!(s.pop_all_acks().unwrap(), vec![("m1".to_string(), 100)]);
    assert!(!s.has_ack("m1").unwrap());
}

#[test]
fn old_acks_are_pruned() {
    let mut s = Storage::open_in_memory().unwrap();
    s.store_ack("old", 99).unwrap();
    s.store_ack("new", 100).unwrap();
    s.prune_acks(100).unwrap();
    assert!(!s.has_ack("old").unwrap());
    assert!(s.has_ack("new").unwrap());
}

#[test]
fn deleted_contact_leaves_nothing() {
    let mut s = Storage::open_in_memory().unwrap();
    s.upsert_contact(&contact("alice-id", "alice")).unwrap();
    s.upsert_contact(&contact("bob-id", "bob")).unwrap();
    s.store_message(&message("a", "alice-id", "first", 10)).unwrap();
    s.store_message(&message("b", "alice-id", "second", 20)).unwrap();
    s.store_message(&message("c", "bob-id", "other", 30)).unwrap();
    s.secure_save("session_alice-id_1", b"a").unwrap();
    s.secure_save("session_ALICE-ID", b"b").unwrap();
    s.secure_save("session_bob-id", b"c").unwrap();
    s.store_ack("a", 1).unwrap();
    assert_eq!(s.delete_contact("alice-id").unwrap(), 2);
    assert!(s.get_contact_by_id("alice-id").unwrap().is_none());
    assert!(s.get_messages("alice-id", 50).unwrap().is_empty());
    assert!(s.secure_load("session_alice-id_1").unwrap().is_none());
    assert!(s.secure_load("session_ALICE-ID").unwrap().is_none());
    assert_eq!(s.secure_load("session_bob-id").unwrap().as_deref(), Some(b"c".as_ref()));
    assert_eq!(s.get_messages("bob-id", 50).unwrap().len(), 1);
    assert!(s.has_ack("a").unwrap());
    assert_eq!(s.delete_contact("alice-id").unwrap(), 0);
}

#[test]
fn keys_of_a_contact_are_found_in_any_script() {
    let mut s = Storage::open_in_memory().unwrap();
    s.secure_save("session_ключ-1", b"a").unwrap();
    s.secure_save("session_КЛЮЧ-1", b"b").unwrap();
    s.secure_save("session_\u{1F511}x", b"c").unwrap();
    assert_eq!(s.delete_contact("ключ").unwrap(), 0);
    assert!(s.secure_load("session_ключ-1").unwrap().is_none());
    assert!(s.secure_load("session_КЛЮЧ-1").unwrap().is_some());
    s.delete_contact("\u{1F511}X").unwrap();
    assert!(s.secure_load("session_\u{1F511}x").unwrap().is_none());
    s.delete_contact("").unwrap();
    assert!(s.secure_load("session_КЛЮЧ-1").unwrap().is_none());
}

#[test]
fn pruning_goes_by_the_first_time() {
    let mut s = Storage::open_in_memory().unwrap();
    s.store_ack("late", 100).unwrap();
    s.store_ack("late", 50).unwrap();
    s.store_ack("early", 50).unwrap();
    s.store_ack("early", 100).unwrap();
    s.prune_acks(80).unwrap();
    assert!(s.has_ack("late").unwrap());
    assert!(!s.has_ack("early").unwrap());
}

#[test]
fn as_many_messages_are_read_as_there_are() {
    let mut s = Storage::open_in_memory().unwrap();
    for i in 0..5 {
        s.store_message(&message(&format!("m{i}"), "alice", "text", i)).unwrap();
    }
    for (limit, n) in [(0, 0), (4, 4), (5, 5), (6, 5), (i64::MAX as usize, 5), (usize::MAX, 5)] {
        assert_eq!(s.get_messages("alice", limit).unwrap().len(), n);
    }
}

#[test]
fn failed_deletion_keeps_what_comes_after() {
    let mut s = Storage::open_in_memory().unwrap();
    s.upsert_contact(&contact("alice", "alice")).unwrap();
    s.store_message(&message("a", "alice", "first", 10)).unwrap();
    s.secure_save("session_alice", b"a").unwrap();
    s.conn.execute_batch("DROP TABLE messages").unwrap();
    assert!(matches!(s.delete_contact("alice"), Err(StorageError::Sqlite(_))));
    assert!(s.get_contact_by_id("alice").unwrap().is_none());
    assert!(s.secure_load("session_alice").unwrap().is_some());
}

#[test]
fn text_that_is_not_utf8_is_an_error() {
    let mut s = Storage::open_in_memory().unwrap();
    s.store_message(&message("a", "alice", "first", 10)).unwrap();
    s.persist_record("t", "{}").unwrap();
    s.conn
        .execute_batch(
            "INSERT INTO contacts VALUES ('a', CAST(x'ff' AS TEXT), '');
             INSERT INTO pending_acks VALUES (CAST(x'fe' AS TEXT), 1);
             UPDATE messages SET text = CAST(x'80' AS TEXT);
             UPDATE records SET json = CAST(x'c3' AS TEXT);",
        )
        .unwrap();
    assert!(matches!(s.get_contacts(), Err(StorageError::Sqlite(_))));
    assert!(matches!(s.get_contact_by_id("a"), Err(StorageError::Sqlite(_))));
    assert!(matches!(s.get_messages("alice", 10), Err(StorageError::Sqlite(_))));
    assert!(matches!(s.pop_all_acks(), Err(StorageError::Sqlite(_))));
    assert!(matches!(s.query_last_record("t"), Err(StorageError::Sqlite(_))));
    assert!(!s.has_ack("a").unwrap());
}

#[test]
fn secure_store_keeps_keys_apart() {
    let mut s = Storage::open_in_memory().unwrap();
    s.secure_save("a", b"1").unwrap();
    s.secure_save("b", b"2").unwrap();
    s.secure_save("a", b"3").unwrap();
    assert_eq!(s.secure_load("a").unwrap(), Some(b"3".to_vec()));
    assert_eq!(s.secure_load("b").unwrap(), Some(b"2".to_vec()));
    assert_eq!(s.secure_load("c").unwrap(), None);
    s.secure_save("empty", b"").unwrap();
    assert_eq!(s.secure_load("empty").unwrap(), Some(Vec::new()));
}

#[test]
fn last_record_of_a_table_is_found() {
    let mut s = Storage::open_in_memory().unwrap();
    assert_eq!(s.query_last_record("messages").unwrap(), None);
    s.persist_record("messages", "{\"n\":1}").unwrap();
    s.persist_record("messages", "{\"n\":2}").unwrap();
    s.persist_record("other", "{\"n\":3}").unwrap();
    assert_eq!(s.query_last_record("messages").unwrap().as_deref(), Some("{\"n\":2}"));
    assert_eq!(s.query_last_record("other").unwrap().as_deref(), Some("{\"n\":3}"));
}

#[test]
fn key_must_have_32_bytes() {
    let conn = rusqlite::Connection::open_in_memory().unwrap();
    assert!(matches!(Storage::open(conn, &[0u8; 31]), Err(StorageError::KeyLength)));
    let conn = rusqlite::Connection::open_in_memory().unwrap();
    assert!(matches!(Storage::open(conn, &[0u8; 33]), Err(StorageError::KeyLength)));
}

#[test]
fn encrypted_database_works() {
    let conn = rusqlite::Connection::open_in_memory().unwrap();
    let mut s = Storage::open(conn, &[7u8; 32]).unwrap();
    s.secure_save("k", b"v").unwrap();
    assert_eq!(s.secure_load("k").unwrap(), Some(b"v".to_vec()));
}

#[test]
fn unencrypted_database_works() {
    let conn = rusqlite::Connection::open_in_memory().unwrap();
    let mut s = Storage::open_unencrypted(conn).unwrap();
    s.store_ack("m", 5).unwrap();
    assert_eq!(s.pop_all_acks().unwrap(), vec![("m".to_string(), 5)]);
}

#[test]
fn key_is_set_in_hexadecimal() {
    let mut key = [0u8; 32];
    key[0] = 0xab;
    key[31] = 0x01;
    assert_eq!(
        Storage::key_pragma(&key),
        format!(
            "PRAGMA key = \"x'ab{}01'\";\nPRAGMA cipher_page_size = 4096;\n",
            "00".repeat(30)
        )
    );
}

#[test]
fn rows_of_another_form_are_refused() {
    assert!(messages_from(&vec![vec![text("a")]]).is_none());
    assert!(contacts_from(&vec![vec![text("a"), text("b"), Value::Int(1)]]).is_none());
    assert!(acks_from(&vec![vec![text("a"), text("b")]]).is_none());
    assert!(matches!(contact_from(&vec![vec![Value::Other]]), Err(StorageError::Row)));
    assert!(matches!(contact_from(&vec![]), Ok(None)));
    assert!(matches!(count_from(&vec![]), Err(StorageError::Row)));
    assert!(matches!(count_from(&vec![vec![text("1")]]), Err(StorageError::Row)));
    assert!(matches!(count_from(&vec![vec![Value::Int(0)]]), Ok(false)));
    assert!(matches!(count_from(&vec![vec![Value::Int(2)]]), Ok(true)));
    assert!(matches!(blob_from(vec![vec![text("1")]]), Err(StorageError::Row)));
    assert!(matches!(blob_from(vec![vec![]]), Err(StorageError::Row)));
    assert!(matches!(text_from(&vec![vec![Value::Blob(vec![1])]]), Err(StorageError::Row)));
    assert!(matches!(text_from(&vec![]), Ok(None)));
}

#[test]
fn rows_are_read() {
    let row = |id: &str, at: i64| {
        vec![text(id), text("p"), text("t"), text("sent"), Value::Int(at), text("")]
    };
    let msgs = messages_from(&vec![row("late", 2), row("early", 1)]).unwrap();
    assert_eq!(msgs[0].id, "early");
    assert_eq!(msgs[0].timestamp_ms, 1);
    assert_eq!(msgs[1].id, "late");
    let acks = acks_from(&vec![vec![text("m"), Value::Int(7)]]).unwrap();
    assert_eq!(acks, vec![("m".to_string(), 7)]);
    assert!(matches!(blob_from(vec![vec![Value::Blob(vec![1, 2])]]), Ok(Some(b)) if b == [1, 2]));
    assert!(done(Ok(3)).is_ok());
    assert!(matches!(
        done(Err(rusqlite::Error::QueryReturnedNoRows)),
        Err(StorageError::Sqlite(rusqlite::Error::QueryReturnedNoRows))
    ));
}
