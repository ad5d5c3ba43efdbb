use construct_tui::engine_adapter::{
    build_engine_config, parse_server_url, EngineEvent, PlatformAction, TuiEngineCallback,
};

fn parsed(url: &str) -> (String, u16) {
    parse_server_url(url)
}

fn host(h: &str, port: u16) -> (String, u16) {
    (h.to_string(), port)
}

#[test]
fn server_url_is_split() {
    assert_eq!(parsed("https://construct.cc"), host("construct.cc", 443));
    assert_eq!(parsed("https://ams.construct.cc:8443"), host("ams.construct.cc", 8443));
    assert_eq!(parsed("http://localhost:80"), host("localhost", 80));
    assert_eq!(parsed("construct.cc:50051"), host("construct.cc", 50051));
    assert_eq!(parsed("construct.cc"), host("construct.cc", 443));
    assert_eq!(parsed(""), host("", 443));
}

#[test]
fn odd_server_urls_are_split() {
    assert_eq!(parsed("https://https://http://x"), host("x", 443));
    assert_eq!(parsed("http://https://x"), host("https", 443));
    assert_eq!(parsed("x:"), host("x", 443));
    assert_eq!(parsed("x:+99"), host("x", 99));
    assert_eq!(parsed("x:+"), host("x", 443));
    assert_eq!(parsed("x:-1"), host("x", 443));
    assert_eq!(parsed("x:65535"), host("x", 65535));
    assert_eq!(parsed("x:65536"), host("x", 443));
    assert_eq!(parsed("x:99999999999999999999"), host("x", 443));
    assert_eq!(parsed("x:000443"), host("x", 443));
    assert_eq!(parsed("x:80/path"), host("x", 443));
    assert_eq!(parsed("x:1:2"), host("x", 443));
}

#[test]
fn engine_is_configured() {
    let c = build_engine_config(
        "https://construct.cc:444",
        Some("u"),
        Some("d"),
        Some("t"),
        &[1, 2],
    );
    assert_eq!(c.server_host, "construct.cc");
    assert_eq!(c.server_port, 444);
    assert_eq!(c.my_user_id, "u");
    assert_eq!(c.my_device_id, "d");
    assert_eq!(c.auth_token.as_deref(), Some("t"));
    assert_eq!(c.keys_cfe_data, vec![1, 2]);
    assert!(c.verify_certs);
    assert!(!c.use_masque);
    assert!(c.masque_host.is_none());
    assert!(c.masque_port.is_none());
    assert_eq!(c.event_buffer, 1000);
    let c = build_engine_config("construct.cc", None, None, None, &[]);
    assert_eq!(c.my_user_id, "");
    assert_eq!(c.my_device_id, "");
    assert!(c.auth_token.is_none());
}

#[test]
fn latest_event_of_the_engine_is_kept() {
    let mut callback = TuiEngineCallback::new();
    assert!(callback.latest.is_none());
    assert!(callback.on_action(PlatformAction::SpkRotated { key_id: 3 }));
    assert!(matches!(callback.latest, Some(EngineEvent::SpkRotated { key_id: 3 })));
    assert!(callback.on_action(PlatformAction::ConnectionStateChanged { connected: true }));
    assert!(!callback.on_action(PlatformAction::Unneeded));
    assert!(matches!(
        callback.latest,
        Some(EngineEvent::ConnectionStateChanged { connected: true })
    ));
}

#[test]
fn message_of_the_engine_is_handed_over() {
    let mut callback = TuiEngineCallback::new();
    callback.on_action(PlatformAction::DisplayMessage {
        message_id: "m".to_string(),
        plaintext: vec![104, 105],
        sender_id: "s".to_string(),
        conversation_id: "c".to_string(),
        timestamp: 9,
    });
    match callback.latest {
        Some(EngineEvent::DisplayMessage {
            message_id,
            plaintext,
            sender_id,
            conversation_id,
            timestamp,
        }) => {
            assert_eq!(message_id, "m");
            assert_eq!(plaintext, b"hi");
            assert_eq!(sender_id, "s");
            assert_eq!(conversation_id, "c");
            assert_eq!(timestamp, 9);
        }
        _ => panic!("not a message"),
    }
}
