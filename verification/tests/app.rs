use construct_tui::app::{
    app_config, auth_success, export_path, serve, transport_label, vec_to_key32, App, AppConfig,
    AuthMsg, AuthSuccess, Effect, Focus, Fresh, InternalEvent, Overrides, Reply, SavePurpose, Screen,
    Served,
};
use construct_tui::auth::{AuthResult, RegistrationStep};
use construct_tui::bridge::{BridgeEvent, TokenRefreshMsg};
use construct_tui::config::{
    create_session_key, encrypt_session, Config, Session, SessionFile, SessionState,
    TransportConfig,
};
use construct_tui::draw::{Area, Draw};
use construct_tui::keys::{KeyCode, KeyEvent, Modifiers};
use construct_tui::orchestrator_task::IncomingEvent;
use construct_tui::screens::chat_list::Contact;
use construct_tui::screens::connection_status::ConnectionState;
use construct_tui::screens::contact_search::SearchResult;
use construct_tui::screens::safety_number::compute_safety_number;
use construct_tui::secret::SecretBytes;
use construct_tui::storage::{Storage, StorageError, StoredContact, StoredMessage};
use construct_tui::streaming::StreamCmd;

fn config() -> AppConfig {
    AppConfig {
        server_url: "https://construct.cc".to_string(),
        transport: TransportConfig::Direct,
        no_encrypt: false,
        headless: false,
        pq_active: false,
    }
}

fn key(code: KeyCode) -> KeyEvent {
    KeyEvent { code, modifiers: Modifiers::Plain, pressed: true }
}

fn ctrl(c: char) -> KeyEvent {
    KeyEvent { code: KeyCode::Char(c), modifiers: Modifiers::Control, pressed: true }
}

fn fresh() -> Fresh {
    Fresh { message_id: "fresh".to_string(), unix_secs: 1_700_000_000 }
}

fn press(app: &mut App, code: KeyCode) -> Vec<Effect> {
    app.handle_event(key(code), fresh())
}

fn type_text(app: &mut App, text: &str) {
    for c in text.chars() {
        assert!(press(app, KeyCode::Char(c)).is_empty());
    }
}

fn contact(id: &str) -> Contact {
    Contact {
        id: id.to_string(),
        display_name: format!("name of {id}"),
        unread: 0,
        last_message: None,
    }
}

fn session() -> Session {
    Session {
        signing_key_hex: "03".repeat(32),
        identity_key_hex: "04".repeat(32),
        device_id: "dev".to_string(),
        user_id: "u".to_string(),
        access_token: "access".to_string(),
        refresh_token: "refresh".to_string(),
        expires_at: 77,
        spk_key_hex: "05".repeat(32),
        spk_sig_hex: "06".repeat(64),
    }
}

fn success(pending_save: Option<Session>) -> InternalEvent {
    InternalEvent::Auth(AuthMsg::Success(Box::new(AuthSuccess {
        user_id: "u".to_string(),
        device_id: "dev".to_string(),
        access_token: "access".to_string(),
        full_session: session(),
        pending_save,
    })))
}

/// A client on the main screen with three contacts.
fn at_main() -> App {
    let mut app = App::new(config());
    app.screen = Screen::Main;
    app.chat_list.set_contacts(vec![contact("a"), contact("b"), contact("c")]);
    app
}

#[test]
fn command_line_goes_over_the_file() {
    let overrides = || Overrides {
        server: None,
        bridge: None,
        bridge_tls_sni: Some("sni".to_string()),
        no_encrypt: false,
        headless: false,
        post_quantum: false,
    };
    let c = app_config(Config::default(), overrides(), false);
    assert_eq!(c.server_url, "https://construct.cc");
    assert_eq!(c.transport, TransportConfig::Direct);
    assert!(!c.no_encrypt);
    let mut o = overrides();
    o.bridge = Some("line".to_string());
    o.server = Some("https://other".to_string());
    let c = app_config(Config::default(), o, true);
    assert_eq!(c.server_url, "https://other");
    assert_eq!(
        c.transport,
        TransportConfig::Obfs4Tls {
            bridge_line: "line".to_string(),
            tls_server_name: "sni".to_string(),
        }
    );
    assert!(c.no_encrypt);
    let mut o = overrides();
    o.bridge = Some("line".to_string());
    o.bridge_tls_sni = None;
    o.no_encrypt = true;
    let c = app_config(Config::default(), o, false);
    assert_eq!(c.transport, TransportConfig::Obfs4 { bridge_line: "line".to_string() });
    assert!(c.no_encrypt);
}

#[test]
fn startup_depends_on_the_saved_session() {
    let mut app = App::new(config());
    assert!(app.startup_check(SessionState::Encrypted).is_empty());
    assert!(matches!(app.screen, Screen::Unlock));
    assert!(app.startup_check(SessionState::Absent).is_empty());
    assert!(matches!(app.screen, Screen::Onboarding));
    let effects = app.startup_check(SessionState::Plaintext);
    assert!(matches!(&effects[..], [Effect::RestoreFromDisk]));
    assert!(matches!(&app.screen, Screen::Connecting(m) if m == "Restoring session…"));
}

#[test]
fn interrupt_quits_everywhere() {
    let screens = [
        Screen::Startup,
        Screen::Unlock,
        Screen::SetPassphrase,
        Screen::Onboarding,
        Screen::DeviceLink,
        Screen::Registering,
        Screen::Connecting(String::new()),
        Screen::AuthError(String::new()),
        Screen::Main,
        Screen::Settings,
        Screen::IdentityQr,
        Screen::ContactSearch,
        Screen::SafetyNumber,
    ];
    for screen in screens {
        let mut app = at_main();
        app.screen = screen;
        assert!(app.handle_event(ctrl('c'), fresh()).is_empty());
        assert!(!app.running);
    }
    let mut app = at_main();
    let released = KeyEvent { pressed: false, ..ctrl('c') };
    assert!(app.handle_event(released, fresh()).is_empty());
    assert!(app.running);
}

#[test]
fn quit_key_is_typed_while_composing() {
    let mut app = at_main();
    press(&mut app, KeyCode::Enter);
    press(&mut app, KeyCode::Char('i'));
    assert_eq!(app.focus, Focus::Compose);
    press(&mut app, KeyCode::Char('q'));
    assert!(app.running);
    assert_eq!(app.chat_view.compose, "q");
    press(&mut app, KeyCode::Esc);
    press(&mut app, KeyCode::Char('q'));
    assert!(!app.running);
}

#[test]
fn deletion_is_asked_about() {
    let mut app = at_main();
    app.has_storage = true;
    assert!(press(&mut app, KeyCode::Char('x')).is_empty());
    assert_eq!(app.delete_confirm.as_deref(), Some("a"));
    assert!(press(&mut app, KeyCode::Char('n')).is_empty());
    assert!(app.delete_confirm.is_none());
    assert_eq!(app.chat_list.contacts.len(), 3);
    press(&mut app, KeyCode::Char('x'));
    let effects = press(&mut app, KeyCode::Char('y'));
    assert!(matches!(&effects[..], [Effect::DeleteContact { peer_id }] if peer_id == "a"));
    let effects =
        app.handle_reply(Reply::Deleted { peer_id: "a".to_string(), result: Ok(()) });
    assert!(effects.is_empty());
    assert_eq!(app.chat_list.contacts.len(), 2);
    assert_eq!(app.status, "Node removed.");
    app.handle_reply(Reply::Deleted {
        peer_id: "b".to_string(),
        result: Err("locked".to_string()),
    });
    assert_eq!(app.status, "Delete failed: locked");
    assert_eq!(app.chat_list.contacts.len(), 2);
}

#[test]
fn deletion_works_without_a_database() {
    let mut app = at_main();
    press(&mut app, KeyCode::Down);
    press(&mut app, KeyCode::Char('x'));
    assert!(press(&mut app, KeyCode::Char('Y')).is_empty());
    let ids: Vec<&str> = app.chat_list.contacts.iter().map(|c| c.id.as_str()).collect();
    assert_eq!(ids, vec!["a", "c"]);
}

#[test]
fn focus_moves_over_the_main_screen() {
    let mut app = at_main();
    let messages = app.chat_view.messages.len();
    assert!(press(&mut app, KeyCode::Tab).is_empty());
    assert_eq!(app.focus, Focus::Compose);
    assert_eq!(app.chat_view.contact_name, "");
    assert_eq!(app.chat_view.messages.len(), messages);
    press(&mut app, KeyCode::Esc);
    press(&mut app, KeyCode::Enter);
    assert_eq!(app.focus, Focus::ChatView);
    assert_eq!(app.chat_view.contact_name, "name of a");
    assert!(app.chat_view.messages.is_empty());
    press(&mut app, KeyCode::Tab);
    assert_eq!(app.focus, Focus::Compose);
    press(&mut app, KeyCode::BackTab);
    assert_eq!(app.focus, Focus::ContactList);
    assert!(app.chat_list.focused && !app.chat_view.focused && !app.chat_view.compose_focused);
    press(&mut app, KeyCode::Enter);
    press(&mut app, KeyCode::Esc);
    assert_eq!(app.focus, Focus::ContactList);
    press(&mut app, KeyCode::Char('i'));
    assert_eq!(app.focus, Focus::Compose);
    assert!(app.chat_view.compose_focused && !app.chat_list.focused);
    press(&mut app, KeyCode::Esc);
    assert_eq!(app.focus, Focus::ContactList);
    assert!(app.chat_list.focused && !app.chat_view.compose_focused);
}

#[test]
fn history_is_loaded_and_shown() {
    let mut app = at_main();
    app.has_storage = true;
    let effects = press(&mut app, KeyCode::Enter);
    assert!(matches!(
        &effects[..],
        [Effect::LoadHistory { peer_id, limit: 50 }] if peer_id == "a"
    ));
    let message = |id: &str, direction: &str| StoredMessage {
        id: id.to_string(),
        peer_id: "a".to_string(),
        text: format!("text of {id}"),
        direction: direction.to_string(),
        timestamp_ms: 60_000,
        delivery_status: String::new(),
    };
    app.handle_reply(Reply::HistoryLoaded(Some(vec![
        message("1", "sent"),
        message("2", "received"),
    ])));
    assert_eq!(app.chat_view.messages.len(), 2);
    assert_eq!(app.chat_view.messages[0].text, "text of 1");
    assert_eq!(app.chat_view.messages[0].time, "00:01");
    app.handle_reply(Reply::HistoryLoaded(None));
    assert_eq!(app.chat_view.messages.len(), 2);
}

#[test]
fn message_is_sent() {
    let mut app = at_main();
    app.has_orchestrator = true;
    press(&mut app, KeyCode::Enter);
    press(&mut app, KeyCode::Tab);
    type_text(&mut app, "  hi ");
    let effects = press(&mut app, KeyCode::Enter);
    match &effects[..] {
        [Effect::ToCore(IncomingEvent::OutgoingMessage {
            contact_id,
            message_id,
            plaintext,
            content_type,
        })] => {
            assert_eq!((contact_id.as_str(), message_id.as_str()), ("a", "fresh"));
            assert_eq!(plaintext, b"  hi ");
            assert_eq!(*content_type, 0);
        }
        _ => panic!("not sent"),
    }
    assert_eq!(app.status, "Message sent");
    assert_eq!(app.chat_view.messages.len(), 1);
    assert_eq!(app.chat_view.messages[0].time, "22:13");
    type_text(&mut app, "   ");
    assert!(press(&mut app, KeyCode::Enter).is_empty());
    assert_eq!(app.chat_view.compose, "");
    assert_eq!(app.chat_view.messages.len(), 1);
}

#[test]
fn registration_leads_to_the_passphrase() {
    let mut app = App::new(config());
    app.startup_check(SessionState::Absent);
    type_text(&mut app, " neo ");
    let effects = press(&mut app, KeyCode::Enter);
    assert!(matches!(
        &effects[..],
        [Effect::Register { username: Some(u) }, Effect::StartTicker] if u == "neo"
    ));
    assert!(matches!(app.screen, Screen::Registering));
    app.handle_internal(InternalEvent::RegistrationStep(RegistrationStep::Connect), fresh());
    assert_eq!(app.registration.active_step, 4);
    app.handle_internal(InternalEvent::Tick, fresh());
    assert_eq!(app.registration.spinner_tick, 1);
    let effects = app.handle_internal(success(Some(session())), fresh());
    assert!(matches!(
        &effects[..],
        [Effect::StopTicker, Effect::StartTokenRefresh { expires_at: 77, .. }]
    ));
    assert_eq!(app.registration.active_step, 7);
    assert!(matches!(app.screen, Screen::SetPassphrase));
    assert!(app.pending_session.is_some());
    type_text(&mut app, "pass");
    let effects = press(&mut app, KeyCode::Enter);
    assert!(matches!(
        &effects[..],
        [Effect::SaveSession { purpose: SavePurpose::Setup { encrypted: true }, .. }]
    ));
    assert_eq!(app.unlock_screen.passphrase, "");
    let effects = app.handle_reply(Reply::Saved {
        session: session(),
        purpose: SavePurpose::Setup { encrypted: true },
        result: Ok(()),
    });
    assert!(matches!(&effects[..], [Effect::BuildClient { identity, .. }] if identity == &[4; 32]));
    assert!(app.session_key.is_some() && app.pending_key.is_none());
    assert!(matches!(app.screen, Screen::Main));
    assert!(matches!(&app.connection, ConnectionState::Connected { .. }));
}

#[test]
fn empty_passphrase_means_no_encryption() {
    let mut app = App::new(config());
    app.screen = Screen::SetPassphrase;
    app.pending_session = Some(session());
    let effects = press(&mut app, KeyCode::Enter);
    assert!(matches!(
        &effects[..],
        [Effect::SaveSession { purpose: SavePurpose::Setup { encrypted: false }, .. }]
    ));
    let effects = app.handle_reply(Reply::Saved {
        session: session(),
        purpose: SavePurpose::Setup { encrypted: false },
        result: Err("full".to_string()),
    });
    assert!(effects.is_empty());
    assert_eq!(app.unlock_screen.error.as_deref(), Some("Save failed: full"));
    assert!(app.pending_session.is_some());
    app.handle_reply(Reply::Saved {
        session: session(),
        purpose: SavePurpose::Setup { encrypted: false },
        result: Ok(()),
    });
    assert!(app.no_encrypt);
}

#[test]
fn plain_sessions_are_saved_only_where_wanted() {
    let mut app = App::new(config());
    app.no_encrypt = true;
    let effects = app.handle_internal(success(Some(session())), fresh());
    assert!(matches!(
        &effects[..],
        [
            Effect::StartTokenRefresh { .. },
            Effect::SaveSession { purpose: SavePurpose::Login { encrypted: false }, .. }
        ]
    ));
    let mut app = App::new(config());
    app.session_key = create_session_key(b"pass").ok();
    let salt = app.session_key.as_ref().unwrap().master_salt;
    let effects = app.handle_internal(success(Some(session())), fresh());
    assert!(matches!(
        &effects[1],
        Effect::SaveSession { purpose: SavePurpose::Login { encrypted: true }, .. }
    ));
    assert_eq!(app.session_key.as_ref().unwrap().master_salt, salt);
}

#[test]
fn session_is_unlocked() {
    let sk = create_session_key(b"pass").ok().unwrap();
    let enc = encrypt_session(&SecretBytes::new(b"the session"), &sk).ok().unwrap();
    let mut app = App::new(config());
    app.startup_check(SessionState::Encrypted);
    assert!(press(&mut app, KeyCode::Enter).is_empty());
    assert_eq!(app.unlock_screen.error.as_deref(), Some("Enter your passphrase"));
    type_text(&mut app, "pass");
    let effects = press(&mut app, KeyCode::Enter);
    let Some(Effect::ReadSession { passphrase }) = effects.into_iter().next() else {
        panic!("session is not read");
    };
    assert_eq!(passphrase.bytes(), b"pass");
    let effects =
        app.handle_reply(Reply::SessionRead { passphrase, file: SessionFile::Encrypted(enc) });
    assert!(matches!(
        &effects[..],
        [Effect::ParseSession { text }] if text.bytes() == b"the session"
    ));
    let effects = app.handle_reply(Reply::SessionParsed(Ok(session())));
    assert!(matches!(&effects[..], [Effect::Authenticate { again: false, .. }]));
    assert!(app.session_key.is_some());
}

#[test]
fn session_is_not_unlocked_with_another_passphrase() {
    let sk = create_session_key(b"pass").ok().unwrap();
    let enc = encrypt_session(&SecretBytes::new(b"the session"), &sk).ok().unwrap();
    let mut app = App::new(config());
    let guess = || SecretBytes::new(b"guess");
    let effects = app.handle_reply(Reply::SessionRead {
        passphrase: guess(),
        file: SessionFile::Encrypted(enc),
    });
    assert!(effects.is_empty());
    assert_eq!(
        app.unlock_screen.error.as_deref(),
        Some("Session corrupted: Decryption failed — wrong passphrase?")
    );
    app.handle_reply(Reply::SessionRead { passphrase: guess(), file: SessionFile::Absent });
    assert_eq!(app.unlock_screen.error.as_deref(), Some("No session found"));
    app.handle_reply(Reply::SessionRead { passphrase: guess(), file: SessionFile::Other });
    assert_eq!(
        app.unlock_screen.error.as_deref(),
        Some("Wrong passphrase or corrupted session")
    );
    app.handle_reply(Reply::SessionParsed(Err("bad json".to_string())));
    assert_eq!(app.unlock_screen.error.as_deref(), Some("Session corrupted: bad json"));
    assert!(app.session_key.is_none());
}

#[test]
fn core_is_started_step_by_step() {
    let mut app = App::new(config());
    let effects = app.handle_internal(success(None), fresh());
    assert!(matches!(&effects[..], [Effect::BuildClient { .. }]));
    let effects = app.handle_reply(Reply::ClientBuilt(Ok(())));
    assert!(matches!(&effects[..], [Effect::OpenStorage { encrypted: false }]));
    let effects = app.handle_reply(Reply::StorageOpened(Ok(())));
    assert!(matches!(&effects[..], [Effect::LoadContacts]));
    let stored = StoredContact {
        user_id: "a".to_string(),
        display_name: "alice".to_string(),
        identity_key_b64: String::new(),
    };
    let effects = app.handle_reply(Reply::ContactsLoaded(Some(vec![stored])));
    assert!(matches!(&effects[..], [Effect::PrepareCore { contact_ids }] if contact_ids == &["a"]));
    assert_eq!(app.chat_list.contacts[0].display_name, "alice");
    let effects = app.handle_reply(Reply::CorePrepared {
        contact_ids: vec!["a".to_string()],
        identity_key: Some(vec![1; 32]),
        otpk_count: 100,
    });
    assert!(matches!(
        &effects[..],
        [
            Effect::SpawnStream { .. },
            Effect::SpawnOrchestrator { .. },
            Effect::ToCore(IncomingEvent::AppLaunched),
            Effect::UploadOtpks { .. }
        ]
    ));
    assert!(app.has_stream && app.has_orchestrator && app.has_storage);
}

#[test]
fn failed_steps_are_reported() {
    let mut app = App::new(config());
    let mut bad = session();
    bad.spk_key_hex = "xy".to_string();
    let AuthMsg::Success(s) = auth_success(
        AuthResult {
            user_id: "u".to_string(),
            device_id: "dev".to_string(),
            access_token: "access".to_string(),
            session: None,
        },
        bad,
    ) else {
        panic!("no success");
    };
    assert!(app.handle_auth_msg(AuthMsg::Success(s)).is_empty());
    assert_eq!(
        app.status,
        "Orchestrator key decode error: Invalid character 'x' at position 0"
    );
    app.handle_reply(Reply::ClientBuilt(Err("keys".to_string())));
    assert_eq!(app.status, "Orchestrator init error: keys");
    app.handle_reply(Reply::StorageOpened(Err("locked".to_string())));
    assert_eq!(app.status, "Storage open error: locked");
    app.handle_reply(Reply::Saved {
        session: session(),
        purpose: SavePurpose::Login { encrypted: true },
        result: Err("full".to_string()),
    });
    assert!(matches!(&app.screen, Screen::AuthError(m) if m == "Save failed: full"));
    app.handle_internal(InternalEvent::Auth(AuthMsg::Failure("down".to_string())), fresh());
    assert!(matches!(&app.screen, Screen::AuthError(m) if m == "down"));
    press(&mut app, KeyCode::Enter);
    assert!(matches!(app.screen, Screen::Onboarding));
    app.handle_internal(InternalEvent::Auth(AuthMsg::Failure("no_session".to_string())), fresh());
    assert!(matches!(app.screen, Screen::Onboarding));
}

#[test]
fn tokens_are_refreshed() {
    let mut app = App::new(config());
    let refreshed = || TokenRefreshMsg::Refreshed {
        access_token: "a2".to_string(),
        refresh_token: "r2".to_string(),
        expires_at: 99,
    };
    assert!(app.handle_token_refresh_msg(refreshed()).is_empty());
    app.current_session = Some(session());
    app.no_encrypt = true;
    let effects = app.handle_token_refresh_msg(refreshed());
    assert!(matches!(
        &effects[..],
        [
            Effect::StartTokenRefresh { expires_at: 99, .. },
            Effect::SaveQuietly { encrypted: false, .. }
        ]
    ));
    assert_eq!(app.access_token, "a2");
    assert_eq!(app.current_session.as_ref().unwrap().refresh_token, "r2");
    let effects = app.handle_token_refresh_msg(TokenRefreshMsg::Failed("no".to_string()));
    assert!(matches!(&effects[..], [Effect::Authenticate { again: true, .. }]));
    app.current_session = None;
    assert!(app.handle_token_refresh_msg(TokenRefreshMsg::Failed("no".to_string())).is_empty());
    assert_eq!(app.status, "Device re-auth failed: no session in memory");
}

#[test]
fn events_of_the_core_are_shown() {
    let mut app = at_main();
    let n = app.chat_view.messages.len();
    app.handle_bridge_event(
        BridgeEvent::NewMessage {
            peer_id: "a".to_string(),
            message_id: "m".to_string(),
            text: "hi".to_string(),
            timestamp_ms: 5,
        },
        fresh(),
    );
    assert_eq!(app.chat_view.messages.len(), n + 1);
    assert_eq!(app.chat_view.messages[n].text, "hi");
    app.handle_bridge_event(BridgeEvent::Error("down".to_string()), fresh());
    assert_eq!(app.status, "Bridge error: down");
}

#[test]
fn contact_is_searched_and_added() {
    let mut app = at_main();
    app.has_storage = true;
    app.has_stream = true;
    press(&mut app, KeyCode::Char('a'));
    assert!(matches!(app.screen, Screen::ContactSearch));
    assert!(press(&mut app, KeyCode::Enter).is_empty());
    type_text(&mut app, "neo");
    let effects = press(&mut app, KeyCode::Enter);
    assert!(matches!(&effects[..], [Effect::Search { query }] if query == "neo"));
    assert!(app.contact_search.searching);
    app.handle_internal(
        InternalEvent::ContactSearchResult(vec![SearchResult {
            user_id: "id".to_string(),
            username: "neo".to_string(),
            display_name: "Neo".to_string(),
        }]),
        fresh(),
    );
    let effects = app.handle_event(ctrl('a'), fresh());
    assert!(matches!(
        &effects[..],
        [Effect::UpsertContact(c), Effect::ToStream(StreamCmd::Subscribe(ids, None))]
            if c.user_id == "id" && ids == &["id"]
    ));
    assert_eq!(app.chat_list.contacts.len(), 4);
    assert_eq!(app.status, "Added @neo");
    assert!(matches!(app.screen, Screen::Main));
    press(&mut app, KeyCode::Char('n'));
    app.handle_internal(InternalEvent::ContactSearchError("down".to_string()), fresh());
    assert_eq!(app.contact_search.status.as_deref(), Some("down"));
    press(&mut app, KeyCode::Esc);
    assert!(matches!(app.screen, Screen::Main));
}

#[test]
fn device_is_linked() {
    let mut app = App::new(config());
    app.screen = Screen::Onboarding;
    press(&mut app, KeyCode::Tab);
    assert!(matches!(app.screen, Screen::DeviceLink));
    assert!(press(&mut app, KeyCode::Enter).is_empty());
    assert_eq!(app.device_link.status.as_deref(), Some("Paste the link token first"));
    type_text(&mut app, " token ");
    let effects = press(&mut app, KeyCode::Enter);
    assert!(matches!(&effects[..], [Effect::Link { token }] if token == "token"));
    assert!(matches!(&app.screen, Screen::Connecting(m) if m == "Confirming device link…"));
}

#[test]
fn settings_lead_on() {
    let mut app = at_main();
    press(&mut app, KeyCode::Char('s'));
    assert!(matches!(app.screen, Screen::Settings));
    press(&mut app, KeyCode::Char('e'));
    assert_eq!(app.status, "Identity key not available");
    app.our_identity_key = Some(vec![0xab, 0x01]);
    app.user_id = "u".to_string();
    let effects = press(&mut app, KeyCode::Char('e'));
    assert!(matches!(
        &effects[..],
        [Effect::ExportIdentity { contents }]
            if contents == "identity_public_key_hex=ab01\nuser_id=u\n"
    ));
    app.handle_reply(Reply::Exported { path: "/f".to_string(), result: Ok(()) });
    assert_eq!(app.status, "Key exported → /f");
    press(&mut app, KeyCode::Char('Q'));
    assert!(matches!(app.screen, Screen::IdentityQr));
    press(&mut app, KeyCode::Char('z'));
    assert!(matches!(app.screen, Screen::Settings));
    press(&mut app, KeyCode::Char('q'));
    assert!(matches!(app.screen, Screen::Main));
}

#[test]
fn safety_number_is_shown() {
    let mut app = at_main();
    app.has_storage = true;
    app.our_identity_key = Some(vec![1; 32]);
    app.screen = Screen::Settings;
    let effects = press(&mut app, KeyCode::Char('s'));
    assert!(matches!(&effects[..], [Effect::LookUpContact { contact_id, .. }] if contact_id == "a"));
    app.handle_reply(Reply::ContactFound {
        contact_name: "alice".to_string(),
        identity_key_b64: Some("AgICAgICAgICAgICAgICAgICAgICAgICAgICAgICAgI=".to_string()),
    });
    assert!(matches!(app.screen, Screen::SafetyNumber));
    let shown = app.safety_number.as_ref().unwrap();
    assert_eq!(shown.contact_name, "alice");
    assert_eq!(shown.number, compute_safety_number(&[1; 32], &[2; 32]));
    app.handle_reply(Reply::ContactFound {
        contact_name: "alice".to_string(),
        identity_key_b64: Some("*".to_string()),
    });
    assert_eq!(
        app.safety_number.as_ref().unwrap().number,
        compute_safety_number(&[1; 32], &[0; 32])
    );
}

#[test]
fn logout_leaves_nothing() {
    let mut app = at_main();
    app.screen = Screen::Settings;
    app.has_stream = true;
    app.session_key = create_session_key(b"pass").ok();
    app.current_session = Some(session());
    app.access_token = "access".to_string();
    let effects = press(&mut app, KeyCode::Char('l'));
    assert!(matches!(&effects[..], [Effect::ClearSession]));
    app.handle_reply(Reply::SessionCleared(Err("denied".to_string())));
    assert_eq!(app.status, "Logout error: denied");
    assert!(app.session_key.is_some());
    let effects = app.handle_reply(Reply::SessionCleared(Ok(())));
    assert!(matches!(
        &effects[..],
        [Effect::StopCore, Effect::ToStream(StreamCmd::Shutdown), Effect::CloseStorage]
    ));
    assert!(app.session_key.is_none() && app.current_session.is_none());
    assert_eq!(app.access_token, "");
    assert!(app.chat_list.contacts.is_empty());
    let texts: Vec<&str> = app.chat_view.messages.iter().map(|m| m.text.as_str()).collect();
    assert_eq!(texts, vec!["Привет!", "Как дела?", "Отлично!"]);
    assert_eq!(app.chat_view.compose, "");
    assert_eq!(app.settings_screen.selected, Some(6));
    assert!(!app.onboarding.is_error);
    assert!(matches!(app.screen, Screen::Onboarding));
}

#[test]
fn nothing_is_written_in_a_new_client() {
    let mut app = App::new(config());
    assert_eq!(app.onboarding.username, "");
    assert_eq!(app.chat_view.messages.len(), 3);
    app.screen = Screen::Main;
    press(&mut app, KeyCode::Char('i'));
    assert_eq!(app.focus, Focus::Compose);
    let back = KeyEvent { code: KeyCode::BackTab, modifiers: Modifiers::Other, pressed: true };
    assert!(app.handle_event(back, fresh()).is_empty());
    assert_eq!(app.focus, Focus::ContactList);
    assert!(app.chat_list.focused && !app.chat_view.focused && !app.chat_view.compose_focused);
    assert_eq!(app.chat_view.compose, "");
}

#[test]
fn lists_remember_where_they_were_shown_from() {
    let mut app = at_main();
    app.list_shown(Some(2), 1);
    assert_eq!(app.chat_list.selected, Some(0));
    app.screen = Screen::Settings;
    app.list_shown(Some(6), 4);
    assert_eq!((app.settings_screen.selected, app.settings_screen.offset), (Some(6), 4));
    press(&mut app, KeyCode::Up);
    assert_eq!((app.settings_screen.selected, app.settings_screen.offset), (Some(5), 4));
    let area = Area { x: 0, y: 0, width: 40, height: 8 };
    let ops = app.render(area, 0, None);
    assert!(ops.iter().any(|op| matches!(op, Draw::List { selected: Some(5), offset: 4, .. })));
    app.screen = Screen::ContactSearch;
    app.list_shown(None, 0);
    assert_eq!((app.contact_search.selected, app.contact_search.offset), (None, 0));
}

#[test]
fn keys_are_made_32_bytes_long() {
    assert_eq!(vec_to_key32(&vec![]), [0; 32]);
    let mut expected = [0; 32];
    expected[0] = 7;
    assert_eq!(vec_to_key32(&vec![7]), expected);
    assert_eq!(vec_to_key32(&vec![9; 40]), [9; 32]);
}

#[test]
fn transports_have_labels() {
    assert_eq!(transport_label(&TransportConfig::Direct), "direct");
    assert_eq!(
        transport_label(&TransportConfig::Obfs4 { bridge_line: String::new() }),
        "obfs4"
    );
}

#[test]
fn export_goes_to_the_home_directory() {
    assert_eq!(export_path(Some("/home/u"), "id"), "/home/u/construct_identity_id.txt");
    assert_eq!(export_path(None, "id"), "./construct_identity_id.txt");
}

#[test]
fn every_screen_is_drawn() {
    let area = Area { x: 0, y: 0, width: 100, height: 40 };
    let screens = [
        Screen::Unlock,
        Screen::SetPassphrase,
        Screen::Onboarding,
        Screen::DeviceLink,
        Screen::Registering,
        Screen::Connecting("wait".to_string()),
        Screen::AuthError("bad".to_string()),
        Screen::Main,
        Screen::Settings,
        Screen::IdentityQr,
        Screen::ContactSearch,
    ];
    for screen in screens {
        let mut app = at_main();
        app.screen = screen;
        assert!(!app.render(area, 0, Some("invite")).is_empty());
    }
    let mut app = at_main();
    let plain = app.render(area, 0, None);
    app.delete_confirm = Some("a".to_string());
    let asked = app.render(area, 0, None);
    assert_eq!(asked.len(), plain.len() + 1);
    match asked.last() {
        Some(Draw::Text { area, lines, .. }) => {
            assert_eq!(*area, Area { x: 0, y: 38, width: 100, height: 1 });
            let text: Vec<&str> = lines[0].spans.iter().map(|s| s.text.as_str()).collect();
            assert_eq!(
                text.concat(),
                "  ⚠ Remove node name of a and all messages? [y] confirm  [any] cancel"
            );
        }
        _ => panic!("nothing is asked"),
    }
}

#[test]
fn database_effects_are_performed() {
    let mut storage = Storage::open_in_memory().unwrap();
    let contact = StoredContact {
        user_id: "a".to_string(),
        display_name: "alice".to_string(),
        identity_key_b64: "key".to_string(),
    };
    assert!(matches!(serve(&mut storage, Effect::UpsertContact(contact)), Served::Done { result: Ok(()), reply: None }));
    assert!(matches!(
        serve(&mut storage, Effect::LoadContacts),
        Served::Done { result: Ok(()), reply: Some(Reply::ContactsLoaded(Some(c))) } if c.len() == 1 && c[0].user_id == "a"
    ));
    let look_up = |id: &str| Effect::LookUpContact {
        contact_id: id.to_string(),
        contact_name: "alice".to_string(),
    };
    assert!(matches!(
        serve(&mut storage, look_up("a")),
        Served::Done { result: Ok(()), reply: Some(Reply::ContactFound { identity_key_b64: Some(k), .. }) } if k == "key"
    ));
    assert!(matches!(
        serve(&mut storage, look_up("b")),
        Served::Done { result: Ok(()), reply: Some(Reply::ContactFound { identity_key_b64: None, .. }) }
    ));
    storage
        .store_message(&StoredMessage {
            id: "1".to_string(),
            peer_id: "a".to_string(),
            text: "hi".to_string(),
            direction: "sent".to_string(),
            timestamp_ms: 1,
            delivery_status: String::new(),
        })
        .unwrap();
    let history = || Effect::LoadHistory { peer_id: "a".to_string(), limit: 50 };
    assert!(matches!(
        serve(&mut storage, history()),
        Served::Done { result: Ok(()), reply: Some(Reply::HistoryLoaded(Some(h))) } if h.len() == 1
    ));
    assert!(matches!(
        serve(&mut storage, Effect::DeleteContact { peer_id: "a".to_string() }),
        Served::Done { result: Ok(()), reply: Some(Reply::Deleted { result: Ok(()), .. }) }
    ));
    assert!(matches!(
        serve(&mut storage, history()),
        Served::Done { result: Ok(()), reply: Some(Reply::HistoryLoaded(Some(h))) } if h.is_empty()
    ));
    assert!(matches!(
        serve(&mut storage, Effect::StopCore),
        Served::Elsewhere(Effect::StopCore)
    ));
}

#[test]
fn storage_errors_have_messages() {
    assert_eq!(StorageError::KeyLength.message(), "db_key must be 32 bytes");
    assert_eq!(StorageError::Row.message(), "unexpected row in the database");
    assert_eq!(
        StorageError::Sqlite(rusqlite::Error::QueryReturnedNoRows).message(),
        "Query returned no rows"
    );
}
