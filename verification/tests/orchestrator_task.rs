use construct_tui::bridge::BridgeEvent;
use construct_tui::orchestrator_task::{
    bundle_fetched, carry_out, decode_plaintext_text, has_user_content, knst_payload, relay,
    Action, Carried, Command, Decoded, Dispatcher, Env, IncomingEvent, Reply, WireHeader,
};
use construct_tui::storage::{Storage, StorageError, StoredMessage};
use construct_tui::streaming::{
    build_control_envelope, build_envelope, content_type_from_u8, direct_conversation_id,
    encode_envelope, is_control_content, ContentType, StreamEvent,
};

fn s(t: &str) -> String {
    t.to_string()
}

fn env() -> Env {
    Env { now_ms: 1000, fresh_id: s("fresh") }
}

fn dispatcher() -> Dispatcher {
    Dispatcher::new(s("me"), s("dev"))
}

fn frame(payload: &[u8]) -> Vec<u8> {
    let mut f = b"KNST\x01".to_vec();
    f.extend_from_slice(&[0; 25]);
    f.extend_from_slice(payload);
    f
}

#[test]
fn frames_are_recognised() {
    assert_eq!(knst_payload(&frame(b"hi")), Some(b"hi".to_vec()));
    assert_eq!(knst_payload(&frame(b"")), Some(Vec::new()));
    assert_eq!(knst_payload(&b"KNST\x01".to_vec()), None);
    let mut other = frame(b"hi");
    other[4] = 2;
    assert_eq!(knst_payload(&other), None);
}

#[test]
fn text_is_taken_from_the_plaintext() {
    let text = |p: &Vec<u8>, d: Decoded| decode_plaintext_text(p, &d);
    assert_eq!(text(&b"plain".to_vec(), Decoded::Malformed), "plain");
    assert_eq!(text(&b"plain".to_vec(), Decoded::Text(s("other"))), "plain");
    assert_eq!(text(&frame(b"x"), Decoded::Text(s("hello"))), "hello");
    assert_eq!(text(&frame(b"x"), Decoded::NotText), "");
    assert_eq!(text(&frame(b"raw"), Decoded::Malformed), "raw");
    assert_eq!(text(&vec![104, 0xff, 105], Decoded::Malformed), "h\u{fffd}i");
}

#[test]
fn control_texts_are_told_apart() {
    assert!(has_user_content("hi"));
    assert!(!has_user_content(""));
    assert!(!has_user_content("\0hi"));
    assert!(!has_user_content("a __session_ping_1"));
    assert!(!has_user_content("__heartbeat__"));
}

#[test]
fn decrypted_message_is_stored_and_shown() {
    let commands = dispatcher().dispatch(
        Action::MessageDecrypted {
            contact_id: s("alice"),
            message_id: s("m1"),
            plaintext: b"hello".to_vec(),
            decoded: Decoded::Malformed,
        },
        env(),
    );
    assert_eq!(commands.len(), 2);
    match &commands[0] {
        Command::StoreMessage(m) => {
            assert_eq!(m.id, "m1");
            assert_eq!(m.peer_id, "alice");
            assert_eq!(m.text, "hello");
            assert_eq!(m.direction, "received");
            assert_eq!(m.timestamp_ms, 1000);
        }
        _ => panic!("not stored"),
    }
    assert!(matches!(
        &commands[1],
        Command::Notify(BridgeEvent::NewMessage { text, .. }) if text == "hello"
    ));
}

#[test]
fn session_is_started_as_initiator_or_responder() {
    let mut d = dispatcher();
    d.begin_cycle();
    let commands = d.dispatch(
        Action::InitSession { contact_id: s("alice"), bundle_json: s("{}") },
        env(),
    );
    assert!(matches!(&commands[..], [Command::LookUpPending { contact_id, .. }] if contact_id == "alice"));
    let commands = d.resume(
        Reply::Pending { contact_id: s("alice"), bundle_json: s("{}"), count: 0, wire: None },
        env(),
    );
    assert!(matches!(&commands[..], [Command::InitWithBundle { .. }]));
    assert_eq!(d.session_inited, vec!["alice"]);
    let follow_ups = d.take_follow_ups();
    assert!(matches!(
        &follow_ups[..],
        [IncomingEvent::SessionInitCompleted { contact_id, .. }] if contact_id == "alice"
    ));
    let commands = d.resume(
        Reply::Pending {
            contact_id: s("bob"),
            bundle_json: s("{}"),
            count: 1,
            wire: Some(vec![1]),
        },
        env(),
    );
    assert!(matches!(&commands[..], [Command::InitReceiving { healing: false, .. }]));
    let commands = d.resume(
        Reply::Receiving { contact_id: s("bob"), healing: false, plaintext: Some(b"hi".to_vec()) },
        env(),
    );
    assert!(matches!(&commands[..], [Command::PopPending { .. }]));
    let commands = d.resume(
        Reply::Popped {
            contact_id: s("bob"),
            healing: false,
            message_id: None,
            plaintext: b"hi".to_vec(),
            decoded: Decoded::Malformed,
        },
        env(),
    );
    assert!(matches!(&commands[0], Command::StoreMessage(m) if m.id == "fresh" && m.text == "hi"));
}

#[test]
fn healing_is_skipped_after_a_new_session() {
    let heal = || Action::SessionHealNeeded { contact_id: s("alice"), role: s("Initiator") };
    let mut d = dispatcher();
    d.begin_cycle();
    let commands = d.dispatch(heal(), env());
    assert_eq!(commands.len(), 2);
    match &commands[0] {
        Command::Send(e) => {
            assert_eq!(e.content_type, 21);
            assert_eq!(e.recipient.as_deref(), Some("alice"));
        }
        _ => panic!("no reset"),
    }
    assert!(matches!(&commands[1], Command::FetchBundle { wire: None, .. }));
    d.resume(
        Reply::Pending { contact_id: s("alice"), bundle_json: s("{}"), count: 0, wire: None },
        env(),
    );
    assert!(d.dispatch(heal(), env()).is_empty());
    d.take_follow_ups();
    assert!(d.dispatch(heal(), env()).is_empty());
    d.begin_cycle();
    assert_eq!(d.dispatch(heal(), env()).len(), 2);
}

#[test]
fn follow_ups_do_not_lead_to_follow_ups() {
    let mut d = dispatcher();
    d.begin_cycle();
    let loaded = || Reply::SecureLoaded { key: s("k"), data: None };
    d.resume(loaded(), env());
    assert_eq!(d.take_follow_ups().len(), 1);
    d.resume(loaded(), env());
    assert!(d.take_follow_ups().is_empty());
}

#[test]
fn timers_are_started_and_cancelled() {
    let mut d = dispatcher();
    assert!(d.dispatch(Action::CancelTimer { timer_id: s("t") }, env()).is_empty());
    let commands = d.dispatch(Action::ScheduleTimer { timer_id: s("t"), delay_ms: 5 }, env());
    assert!(matches!(&commands[..], [Command::StartTimer { delay_ms: 5, .. }]));
    let commands = d.dispatch(Action::CancelTimer { timer_id: s("t") }, env());
    assert!(matches!(&commands[..], [Command::AbortTimer { timer_id }] if timer_id == "t"));
    assert!(d.dispatch(Action::CancelTimer { timer_id: s("t") }, env()).is_empty());
}

#[test]
fn simple_actions_are_carried_out() {
    let mut d = dispatcher();
    let commands = d.dispatch(Action::PersistMessage { message_json: s("{}") }, env());
    assert!(matches!(&commands[..], [Command::PersistRecord { table, json }] if table == "msg" && json == "{}"));
    let commands = d.dispatch(Action::PersistAck { message_id: s("m"), timestamp: 7 }, env());
    assert!(matches!(&commands[..], [Command::StoreAck { timestamp_ms: 7, .. }]));
    let commands = d.dispatch(Action::NotifyError { code: s("E"), message: s("bad") }, env());
    assert!(matches!(&commands[..], [Command::Notify(BridgeEvent::Error(t))] if t == "[E] bad"));
    let commands = d.dispatch(
        Action::HealSuppressed { contact_id: s("a"), retry_after_ms: 9 },
        env(),
    );
    assert!(matches!(&commands[..], [Command::RelaunchAfter { delay_ms: 9 }]));
    assert!(d.dispatch(Action::SendReceipt { message_id: s("m") }, env()).is_empty());
    let commands = d.dispatch(
        Action::SendEncryptedMessage {
            to: s("alice"),
            payload: vec![1],
            message_id: s("m"),
            content_type: 0,
        },
        env(),
    );
    match &commands[..] {
        [Command::Send(e)] => {
            assert_eq!(e.sender.as_deref(), Some("me"));
            assert_eq!(e.sender_device.as_deref(), Some("dev"));
            assert_eq!(e.recipient.as_deref(), Some("alice"));
            assert_eq!(e.content_type, 1);
            assert_eq!(e.conversation_id, "direct:alice:me");
        }
        _ => panic!("nothing sent"),
    }
    d.resume(Reply::AckChecked { message_id: s("m"), found: None }, env());
    assert!(matches!(
        &d.take_follow_ups()[..],
        [IncomingEvent::AckDbResult { is_processed: false, .. }]
    ));
}

#[test]
fn conversation_is_the_same_for_both() {
    assert_eq!(direct_conversation_id("a", "b"), "direct:a:b");
    assert_eq!(direct_conversation_id("b", "a"), "direct:a:b");
    assert_eq!(direct_conversation_id("a", "a"), "direct:a:a");
    assert_eq!(direct_conversation_id("Z", "a"), "direct:Z:a");
}

#[test]
fn content_types_have_numbers() {
    assert!(matches!(content_type_from_u8(12), ContentType::CallSignal));
    assert!(matches!(content_type_from_u8(20), ContentType::KeyExchange));
    assert!(matches!(content_type_from_u8(21), ContentType::SessionReset));
    assert!(matches!(content_type_from_u8(24), ContentType::SessionResetInit));
    assert!(matches!(content_type_from_u8(77), ContentType::E2eeSignal));
    assert_eq!(ContentType::E2eeSignal.code(), 1);
    assert!(is_control_content(21) && is_control_content(24) && !is_control_content(20));
}

#[test]
fn bare_envelope_is_made() {
    let e = encode_envelope(s("c"), vec![1], s("m"));
    assert_eq!(e.conversation_id, "c");
    assert_eq!(e.message_id.as_deref(), Some("m"));
    assert_eq!(e.encrypted_payload, vec![1]);
    assert!(e.sender.is_none() && e.recipient.is_none() && e.sender_device.is_none());
    assert_eq!(e.content_type, 0);
}

#[test]
fn sent_message_arrives() {
    let e = build_envelope("me", "dev", "you", vec![9], s("m"), ContentType::E2eeSignal);
    let header = WireHeader { message_number: 4, kem_ciphertext: None, one_time_prekey_id: 2 };
    let (shown, handed) = relay(StreamEvent::Message(Box::new(e)), Some(header));
    assert!(shown.is_none());
    match handed {
        Some(IncomingEvent::MessageReceived {
            message_id,
            from,
            data,
            msg_num,
            kem_ct,
            otpk_id,
            is_control,
            content_type,
        }) => {
            assert_eq!((message_id.as_str(), from.as_str()), ("m", "me"));
            assert_eq!(data, vec![9]);
            assert_eq!((msg_num, otpk_id, content_type), (4, 2, 1));
            assert!(kem_ct.is_empty());
            assert!(!is_control);
        }
        _ => panic!("not handed on"),
    }
    let reset =
        build_control_envelope("me", "dev", "you", ContentType::SessionReset, vec![], s("m"));
    let header =
        WireHeader { message_number: 0, kem_ciphertext: Some(vec![8]), one_time_prekey_id: 0 };
    let (_, handed) = relay(StreamEvent::Message(Box::new(reset)), Some(header));
    assert!(matches!(
        handed,
        Some(IncomingEvent::MessageReceived { is_control: true, kem_ct, .. }) if kem_ct == [8]
    ));
}

#[test]
fn stream_events_are_relayed() {
    let e = encode_envelope(s("c"), vec![1], s("m"));
    assert!(matches!(relay(StreamEvent::Message(Box::new(e)), None), (None, None)));
    assert!(matches!(
        relay(StreamEvent::Ack(s("m")), None),
        (None, Some(IncomingEvent::AckReceived { message_id })) if message_id == "m"
    ));
    assert!(matches!(
        relay(StreamEvent::Connected, None),
        (Some(BridgeEvent::Error(t)), Some(IncomingEvent::NetworkReconnected))
            if t == "Stream connected"
    ));
    assert!(matches!(
        relay(StreamEvent::Disconnected, None),
        (Some(BridgeEvent::Error(t)), None) if t == "Stream disconnected"
    ));
}

#[test]
fn missing_bundle_is_empty() {
    assert!(matches!(
        bundle_fetched(s("u"), None),
        IncomingEvent::KeyBundleFetched { user_id, bundle_json } if user_id == "u" && bundle_json.is_empty()
    ));
    assert!(matches!(
        bundle_fetched(s("u"), Some(s("{}"))),
        IncomingEvent::KeyBundleFetched { bundle_json, .. } if bundle_json == "{}"
    ));
}

#[test]
fn database_commands_are_carried_out() {
    let mut storage = Storage::open_in_memory().unwrap();
    let commands = dispatcher().dispatch(
        Action::MessageDecrypted {
            contact_id: s("alice"),
            message_id: s("m1"),
            plaintext: b"hello".to_vec(),
            decoded: Decoded::Malformed,
        },
        env(),
    );
    for command in commands {
        match carry_out(&mut storage, command) {
            Carried::Done { result, reply } => assert!(result.is_ok() && reply.is_none()),
            Carried::Elsewhere(c) => assert!(matches!(c, Command::Notify(_))),
        }
    }
    let stored = storage.get_messages("alice", 10).unwrap();
    assert_eq!(stored.len(), 1);
    assert_eq!(stored[0].text, "hello");
    carry_out(&mut storage, Command::MarkDelivered { message_id: s("m1") });
    assert_eq!(storage.get_messages("alice", 10).unwrap()[0].delivery_status, "delivered");
    carry_out(&mut storage, Command::SecureSave { key: s("k"), data: vec![1] });
    assert!(matches!(
        carry_out(&mut storage, Command::SecureLoad { key: s("k") }),
        Carried::Done { result: Ok(()), reply: Some(Reply::SecureLoaded { key, data: Some(d) }) } if key == "k" && d == [1]
    ));
    assert!(matches!(
        carry_out(&mut storage, Command::SecureLoad { key: s("other") }),
        Carried::Done { result: Ok(()), reply: Some(Reply::SecureLoaded { data: None, .. }) }
    ));
    carry_out(&mut storage, Command::StoreAck { message_id: s("m"), timestamp_ms: 5 });
    assert!(matches!(
        carry_out(&mut storage, Command::CheckAck { message_id: s("m") }),
        Carried::Done { result: Ok(()), reply: Some(Reply::AckChecked { found: Some(true), .. }) }
    ));
    carry_out(&mut storage, Command::PruneAcks { cutoff_ms: 6 });
    assert!(matches!(
        carry_out(&mut storage, Command::CheckAck { message_id: s("m") }),
        Carried::Done { result: Ok(()), reply: Some(Reply::AckChecked { found: Some(false), .. }) }
    ));
    carry_out(&mut storage, Command::PersistRecord { table: s("msg"), json: s("{}") });
    assert_eq!(storage.query_last_record("msg").unwrap().as_deref(), Some("{}"));
}

#[test]
fn refused_message_is_reported() {
    let mut storage = Storage::open_in_memory().unwrap();
    let message = StoredMessage {
        id: s("m1"),
        peer_id: s("alice"),
        text: s("hello"),
        direction: s("sideways"),
        timestamp_ms: 1,
        delivery_status: String::new(),
    };
    assert!(matches!(
        carry_out(&mut storage, Command::StoreMessage(message)),
        Carried::Done { result: Err(StorageError::Sqlite(_)), reply: None }
    ));
    assert!(storage.get_messages("alice", 10).unwrap().is_empty());
}
