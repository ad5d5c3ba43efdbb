//! The state of the client: which screen is shown, what keys and events do to it, and what has to
//! be done outside of it.
//!
//! Every handler returns [`Effect`]s in the order in which they are to be carried out. Some of them
//! are answered, and the answer is handed to [`App::handle_reply`].

use vstd::prelude::*;

use crate::auth::{with_tokens, AuthResult, RegistrationStep};
use crate::bridge::{BridgeEvent, TokenRefreshMsg};
use crate::clock::{current_time_hhmm, hhmm, message_time, message_time_text};
use crate::codec::{base64_bytes, from_base64, from_hex, hex_bytes, hex_error, is_hex_text};
use crate::config::{
    create_session_key, decrypt_session, open_session_key, opened_session, session_key_of,
    stored_salt, Config, ConfigError, Session, SessionFile, SessionKey, SessionState,
    TransportConfig,
};
use crate::keys::{is_interrupt, is_quit, KeyCode, KeyEvent, Modifiers};
use crate::orchestrator_task::IncomingEvent;
use crate::screens::chat_list::{removed_at, ChatListPane, Contact};
use crate::screens::chat_view::{
    is_message, offset_after_new, ChatMessage, ChatViewPane, MessageKind, Scroll,
};
use crate::screens::connection_status::ConnectionState;
use crate::screens::contact_search::{row_before, shows_results, ContactSearchScreen, SearchResult};
use crate::screens::device_link::DeviceLinkScreen;
use crate::screens::onboarding::{OnboardingScreen, USERNAME_LIMIT};
use crate::screens::registration::{RegistrationScreen, STEP_COUNT};
use crate::screens::safety_number::{safety_number, SafetyNumberScreen};
use crate::screens::settings::{next_setting, SettingsAction, SettingsScreen};
use crate::screens::unlock::{UnlockMode, UnlockScreen, PASSPHRASE_LIMIT};
use crate::secret::SecretBytes;
use crate::storage::{
    are_contacts, are_latest, are_searchable, forgotten, is_clean, is_literal, partly_forgotten,
    stored_contacts, stored_messages, Contents, Storage, StorageError, StoredContact, StoredMessage,
};
use crate::streaming::StreamCmd;
use crate::text::{
    bytes_hex, cat2, cat4, cat5, push_hex_range, same_text, trim, trimmed, typed_within,
    without_last,
};

use vstd::utf8::*;

verus! {

// ── Types ────────────────────────────────────────────────────────────────────

/// The screens.
#[derive(Debug)]
pub enum Screen {
    /// Looking for a saved session.
    Startup,
    /// An encrypted session was found: the passphrase is asked for.
    Unlock,
    /// A session is new: a passphrase to protect it is asked for.
    SetPassphrase,
    /// The form of the first run.
    Onboarding,
    /// The form for a link token.
    DeviceLink,
    /// A registration is under way.
    Registering,
    /// An authentication is under way.
    Connecting(String),
    /// An authentication failed.
    AuthError(String),
    /// Contacts and conversation.
    Main,
    /// Settings.
    Settings,
    /// The own identity as a QR code.
    IdentityQr,
    /// Search for contacts.
    ContactSearch,
    /// The safety number of the selected contact.
    SafetyNumber,
}

/// Which part of the main screen the keys go to.
#[derive(Debug, Clone, Copy, PartialEq, Eq, Structural)]
pub enum Focus {
    ContactList,
    ChatView,
    Compose,
}

/// How an authentication ended.
#[derive(Debug)]
pub enum AuthMsg {
    Success(Box<AuthSuccess>),
    Failure(String),
}

/// A successful authentication.
#[derive(Debug)]
pub struct AuthSuccess {
    pub user_id: String,
    pub device_id: String,
    pub access_token: String,
    /// The session with all keys.
    pub full_session: Session,
    /// The session to save, if it is new or has changed.
    pub pending_save: Option<Session>,
}

/// What background tasks report.
#[derive(Debug)]
pub enum InternalEvent {
    Auth(AuthMsg),
    TokenRefresh(TokenRefreshMsg),
    Bridge(BridgeEvent),
    /// A search ended.
    ContactSearchResult(Vec<SearchResult>),
    /// A search failed.
    ContactSearchError(String),
    /// A step of a registration began.
    RegistrationStep(RegistrationStep),
    /// The spinner turns.
    Tick,
}

/// What the configuration file and the command line say.
#[derive(Debug)]
pub struct AppConfig {
    pub server_url: String,
    pub transport: TransportConfig,
    pub no_encrypt: bool,
    pub headless: bool,
    pub pq_active: bool,
}

/// What is said on the command line.
#[derive(Debug)]
pub struct Overrides {
    pub server: Option<String>,
    pub bridge: Option<String>,
    pub bridge_tls_sni: Option<String>,
    pub no_encrypt: bool,
    pub headless: bool,
    pub post_quantum: bool,
}

/// Whether a configuration is the file with what is said on the command line put over it.
pub open spec fn is_configured(
    file: Config,
    cli: Overrides,
    env_no_encrypt: bool,
    r: AppConfig,
) -> bool {
    &&& r.server_url == match cli.server {
        Some(s) => s,
        None => file.server,
    }
    &&& r.transport == match cli.bridge {
        Some(bridge_line) => match cli.bridge_tls_sni {
            Some(tls_server_name) => TransportConfig::Obfs4Tls { bridge_line, tls_server_name },
            None => TransportConfig::Obfs4 { bridge_line },
        },
        None => file.transport,
    }
    &&& r.no_encrypt == (cli.no_encrypt || env_no_encrypt)
    &&& r.headless == cli.headless
    &&& r.pq_active == cli.post_quantum
}

/// The configuration file with what is said on the command line put over it. `env_no_encrypt` says
/// whether the environment asks for no encryption. A server name for the outer TLS counts only with
/// a bridge.
pub fn app_config(file: Config, cli: Overrides, env_no_encrypt: bool) -> (r: AppConfig)
    ensures
        is_configured(file, cli, env_no_encrypt, r),
{
    let transport = match cli.bridge {
        Some(bridge_line) => match cli.bridge_tls_sni {
            Some(tls_server_name) => TransportConfig::Obfs4Tls { bridge_line, tls_server_name },
            None => TransportConfig::Obfs4 { bridge_line },
        },
        None => file.transport,
    };
    let server_url = match cli.server {
        Some(s) => s,
        None => file.server,
    };
    AppConfig {
        server_url,
        transport,
        no_encrypt: cli.no_encrypt || env_no_encrypt,
        headless: cli.headless,
        pq_active: cli.post_quantum,
    }
}

/// How many one-time pre-keys are made when the messaging core starts.
pub const OTPK_COUNT: u32 = 100;

/// The time between two ticks of the spinner, in milliseconds.
pub const TICK_MS: u64 = 80;

/// What a session is saved for, and how.
#[derive(Debug, Clone, Copy, PartialEq, Eq, Structural)]
pub enum SavePurpose {
    /// To go on after an authentication, with the key in use or in plain text.
    Login { encrypted: bool },
    /// To finish the first run, with the key just made or in plain text.
    Setup { encrypted: bool },
}

/// What is to be done outside.
pub enum Effect {
    /// Authenticate the plain session on disk, and report `Auth`.
    RestoreFromDisk,
    /// Authenticate a session, and report `Auth`. With `again` set it is one that was in use.
    Authenticate { session: Session, again: bool },
    /// Register a new device, and report `RegistrationStep`s and `Auth`.
    Register { username: Option<String> },
    /// Link this device to an account, and report `Auth`.
    Link { token: String },
    /// Report `Tick` every [`TICK_MS`] milliseconds.
    StartTicker,
    /// Report no more `Tick`s.
    StopTicker,
    /// Refresh the tokens before they expire, and report `TokenRefresh`.
    StartTokenRefresh { device_id: String, refresh_token: String, expires_at: i64 },
    /// Save a session; answered by `Saved`.
    SaveSession { session: Session, purpose: SavePurpose },
    /// Save a session; whether it works is not asked.
    SaveQuietly { session: Session, encrypted: bool },
    /// Read the session file; answered by `SessionRead`.
    ReadSession { passphrase: SecretBytes },
    /// Read a session from its text; answered by `SessionParsed`.
    ParseSession { text: SecretBytes },
    /// Make the messaging core from its keys; answered by `ClientBuilt`.
    BuildClient { identity: Vec<u8>, signing: Vec<u8>, spk: Vec<u8>, spk_sig: Vec<u8> },
    /// Open the message database twice; answered by `StorageOpened`.
    OpenStorage { encrypted: bool },
    /// Load all contacts; answered by `ContactsLoaded`.
    LoadContacts,
    /// Make [`OTPK_COUNT`] one-time pre-keys and get the public identity key; answered by `CorePrepared`.
    PrepareCore { contact_ids: Vec<String> },
    /// Start the message stream.
    SpawnStream { access_token: String, contact_ids: Vec<String> },
    /// Start the task that runs the messaging core.
    SpawnOrchestrator { access_token: String, user_id: String, device_id: String },
    /// Hand an event to the messaging core.
    ToCore(IncomingEvent),
    /// Upload the one-time pre-keys.
    UploadOtpks { access_token: String, user_id: String, device_id: String },
    /// Load the last messages of a conversation; answered by `HistoryLoaded`.
    LoadHistory { peer_id: String, limit: usize },
    /// Look a contact up; answered by `ContactFound`.
    LookUpContact { contact_id: String, contact_name: String },
    /// Write the public identity key to a file; answered by `Exported`.
    ExportIdentity { contents: String },
    /// Delete a contact with everything that belongs to it; answered by `Deleted`.
    DeleteContact { peer_id: String },
    /// Save a contact; whether it works is not asked.
    UpsertContact(StoredContact),
    /// Hand a command to the message stream.
    ToStream(StreamCmd),
    /// Search for a user, and report `ContactSearchResult` or `ContactSearchError`.
    Search { query: String },
    /// Delete the session file; answered by `SessionCleared`.
    ClearSession,
    /// Stop the task that runs the messaging core.
    StopCore,
    /// Close the message database.
    CloseStorage,
}

/// The answer to an effect. Errors come with their message.
pub enum Reply {
    Saved { session: Session, purpose: SavePurpose, result: Result<(), String> },
    SessionRead { passphrase: SecretBytes, file: SessionFile },
    SessionParsed(Result<Session, String>),
    ClientBuilt(Result<(), String>),
    StorageOpened(Result<(), String>),
    ContactsLoaded(Option<Vec<StoredContact>>),
    CorePrepared { contact_ids: Vec<String>, identity_key: Option<Vec<u8>>, otpk_count: usize },
    HistoryLoaded(Option<Vec<StoredMessage>>),
    ContactFound { contact_name: String, identity_key_b64: Option<String> },
    Exported { path: String, result: Result<(), String> },
    Deleted { peer_id: String, result: Result<(), String> },
    SessionCleared(Result<(), String>),
}

/// What a step takes from the outside: a fresh message ID and the time.
#[derive(Debug)]
pub struct Fresh {
    pub message_id: String,
    pub unix_secs: u64,
}

impl Fresh {
    /// The time of day.
    pub open spec fn time(self) -> Seq<char> {
        hhmm((self.unix_secs % 86400 / 3600) as nat, (self.unix_secs % 3600 / 60) as nat)
    }
}

/// The state of the client.
pub struct App {
    pub screen: Screen,
    pub onboarding: OnboardingScreen,
    pub device_link: DeviceLinkScreen,
    pub unlock_screen: UnlockScreen,
    pub registration: RegistrationScreen,
    /// Whether the spinner turns.
    pub ticking: bool,
    /// The keys in use; there are none before the passphrase was entered or without encryption.
    pub session_key: Option<SessionKey>,
    /// Keys that were made or derived and have not been put to use yet.
    pub pending_key: Option<SessionKey>,
    /// The session in use.
    pub current_session: Option<Session>,
    /// A new session that waits for a passphrase.
    pub pending_session: Option<Session>,
    /// Whether the session and the database are not encrypted.
    pub no_encrypt: bool,
    pub focus: Focus,
    pub chat_list: ChatListPane,
    pub chat_view: ChatViewPane,
    pub status: String,
    pub running: bool,
    pub server_url: String,
    pub transport: TransportConfig,
    pub user_id: String,
    pub pq_active: bool,
    pub connection: ConnectionState,
    pub settings_screen: SettingsScreen,
    pub contact_search: ContactSearchScreen,
    pub safety_number: Option<SafetyNumberScreen>,
    /// Whether the task that runs the messaging core is there.
    pub has_orchestrator: bool,
    /// Whether the message stream is there.
    pub has_stream: bool,
    /// Whether the database is open.
    pub has_storage: bool,
    pub device_id: String,
    pub access_token: String,
    /// The own public identity key.
    pub our_identity_key: Option<Vec<u8>>,
    /// The contact that the user is asked about before it is deleted.
    pub delete_confirm: Option<String>,
}

// ── Small things ─────────────────────────────────────────────────────────────

/// The name of a transport.
pub open spec fn transport_name(t: TransportConfig) -> Seq<char> {
    match t {
        TransportConfig::Direct => "direct"@,
        TransportConfig::Obfs4 { .. } => "obfs4"@,
        TransportConfig::Obfs4Tls { .. } => "obfs4+tls"@,
        TransportConfig::CdnFront { .. } => "cdn-front"@,
    }
}

/// The name of a transport.
pub fn transport_label(t: &TransportConfig) -> (r: &'static str)
    ensures
        r@ == transport_name(*t),
{
    match t {
        TransportConfig::Direct => "direct",
        TransportConfig::Obfs4 { .. } => "obfs4",
        TransportConfig::Obfs4Tls { .. } => "obfs4+tls",
        TransportConfig::CdnFront { .. } => "cdn-front",
    }
}

/// A key cut or filled up with zeros to 32 bytes.
pub open spec fn key32(v: Seq<u8>) -> Seq<u8> {
    Seq::new(
        32,
        |i: int|
            if i < v.len() {
                v[i]
            } else {
                0
            },
    )
}

/// A key cut or filled up with zeros to 32 bytes.
pub fn vec_to_key32(v: &Vec<u8>) -> (r: [u8; 32])
    ensures
        r@ == key32(v@),
{
    let mut out = [0u8; 32];
    let mut i: usize = 0;
    while i < 32 && i < v.len()
        invariant
            i <= 32,
            i <= v@.len(),
            out@.len() == 32,
            forall|j: int| 0 <= j < i ==> out@[j] == v@[j],
            forall|j: int| i <= j < 32 ==> out@[j] == 0,
        decreases 32 - i,
    {
        out[i] = v[i];
        i = i + 1;
    }
    assert(out@ == key32(v@));
    out
}

/// No effect.
fn nothing() -> (r: Vec<Effect>)
    ensures
        r@ == Seq::<Effect>::empty(),
{
    Vec::new()
}

/// One effect.
fn just(e: Effect) -> (r: Vec<Effect>)
    ensures
        r@ == seq![e],
{
    let mut v: Vec<Effect> = Vec::new();
    v.push(e);
    v
}

/// Whether a message says what comes of an authentication.
pub open spec fn is_success(result: AuthResult, session: Session, r: AuthMsg) -> bool {
    &&& r is Success
    &&& *r->Success_0 == (AuthSuccess {
        user_id: result.user_id,
        device_id: result.device_id,
        access_token: result.access_token,
        full_session: session,
        pending_save: result.session,
    })
}

/// What is shown first for the session that is saved.
pub open spec fn on_startup(
    before: App,
    state: SessionState,
    after: App,
    effects: Seq<Effect>,
) -> bool {
    &&& after == (App { screen: after.screen, ..before })
    &&& match state {
        SessionState::Encrypted => after.screen is Unlock && effects.len() == 0,
        SessionState::Plaintext => {
            &&& after.screen matches Screen::Connecting(msg)
            &&& msg@ == "Restoring session…"@
            &&& effects == seq![Effect::RestoreFromDisk]
        },
        SessionState::Absent => after.screen is Onboarding && effects.len() == 0,
    }
}

/// What comes of an authentication: the session to go on with and what is to be saved. `session` is
/// the one with the new tokens.
pub fn auth_success(result: AuthResult, session: Session) -> (r: AuthMsg)
    ensures
        is_success(result, session, r),
{
    AuthMsg::Success(
        Box::new(
            AuthSuccess {
                user_id: result.user_id,
                device_id: result.device_id,
                access_token: result.access_token,
                full_session: session,
                pending_save: result.session,
            },
        ),
    )
}

// ── Starting the messaging core ──────────────────────────────────────────────

/// The message for the first of the four keys of a session that is not hexadecimal, if there is
/// one.
pub open spec fn bad_key(s: Session) -> Option<Seq<char>> {
    if !is_hex_text(s.identity_key_hex@) {
        Some(hex_error(s.identity_key_hex@))
    } else if !is_hex_text(s.signing_key_hex@) {
        Some(hex_error(s.signing_key_hex@))
    } else if !is_hex_text(s.spk_key_hex@) {
        Some(hex_error(s.spk_key_hex@))
    } else if !is_hex_text(s.spk_sig_hex@) {
        Some(hex_error(s.spk_sig_hex@))
    } else {
        None
    }
}

/// How the messaging core is started for a session: it is made from the four keys, or the status
/// says which of them cannot be read.
pub open spec fn core_start(
    s: Session,
    status_before: Seq<char>,
    status_after: Seq<char>,
    effects: Seq<Effect>,
) -> bool {
    match bad_key(s) {
        Some(e) => {
            &&& status_after == "Orchestrator key decode error: "@ + e
            &&& effects.len() == 0
        },
        None => {
            &&& status_after == status_before
            &&& effects.len() == 1
            &&& effects[0] matches Effect::BuildClient { identity, signing, spk, spk_sig }
            &&& identity@ == hex_bytes(s.identity_key_hex@)
            &&& signing@ == hex_bytes(s.signing_key_hex@)
            &&& spk@ == hex_bytes(s.spk_key_hex@)
            &&& spk_sig@ == hex_bytes(s.spk_sig_hex@)
        },
    }
}

/// Whether a list of contacts is the one that was loaded, with nothing unread.
pub open spec fn are_loaded(contacts: Seq<Contact>, stored: Seq<StoredContact>) -> bool {
    &&& contacts.len() == stored.len()
    &&& forall|i: int|
        0 <= i < stored.len() ==> #[trigger] contacts[i] == (Contact {
            id: stored[i].user_id,
            display_name: stored[i].display_name,
            unread: 0,
            last_message: None,
        })
}

// ── Authentication ───────────────────────────────────────────────────────────

/// What is known after an authentication: who the user is, the session with its keys and tokens, and
/// that there is a connection.
pub open spec fn signed_in(before: App, s: AuthSuccess, after: App) -> bool {
    &&& after == (App {
        screen: after.screen,
        status: after.status,
        user_id: s.user_id,
        device_id: s.device_id,
        access_token: s.access_token,
        connection: after.connection,
        settings_screen: after.settings_screen,
        current_session: Some(s.full_session),
        pending_session: after.pending_session,
        unlock_screen: after.unlock_screen,
        ..before
    })
    &&& after.connection matches ConnectionState::Connected { transport, latency_ms }
    &&& transport@ == transport_name(before.transport)
    &&& latency_ms is None
    &&& after.settings_screen.shows(
        before.server_url@,
        transport_name(before.transport),
        s.device_id@,
        s.user_id@,
        before.pq_active,
    )
    &&& after.settings_screen.selected == Some(6usize) && after.settings_screen.offset == 0
}

/// The tokens of a session are refreshed before they expire.
pub open spec fn refresh_of(s: Session) -> Effect {
    Effect::StartTokenRefresh {
        device_id: s.device_id,
        refresh_token: s.refresh_token,
        expires_at: s.expires_at,
    }
}

/// What a successful authentication does. A session that is to be saved is saved first, with the key
/// in use or in plain text; without either a passphrase is asked for, and nothing is started before
/// it is there. One that is saved already is put to use at once.
pub open spec fn on_success(before: App, s: AuthSuccess, after: App, effects: Seq<Effect>) -> bool {
    let status = "Connected as "@ + s.user_id@;
    &&& signed_in(before, s, after)
    &&& match s.pending_save {
        Some(session) => {
            &&& after.status@ == status
            &&& effects.len() >= 1
            &&& effects[0] == refresh_of(session)
            &&& if before.session_key is Some || before.no_encrypt {
                &&& effects.len() == 2
                &&& effects[1] == (Effect::SaveSession {
                    session,
                    purpose: SavePurpose::Login { encrypted: before.session_key is Some },
                })
                &&& after.screen == before.screen
                &&& after.pending_session == before.pending_session
                &&& after.unlock_screen == before.unlock_screen
            } else {
                &&& effects.len() == 1
                &&& after.screen is SetPassphrase
                &&& after.pending_session == Some(session)
                &&& after.unlock_screen.mode == UnlockMode::SetNew
                &&& after.unlock_screen.passphrase@ == ""@
                &&& after.unlock_screen.error is None
            }
        },
        None => {
            &&& core_start(s.full_session, status, after.status@, effects)
            &&& after.screen is Main
            &&& after.pending_session == before.pending_session
            &&& after.unlock_screen == before.unlock_screen
        },
    }
}

/// What a failed authentication does. Where there was no session, or a plain one was being restored
/// at startup, the first run begins; otherwise the error is shown.
pub open spec fn on_failure(before: App, msg: String, after: App, effects: Seq<Effect>) -> bool {
    &&& after == (App { screen: after.screen, ticking: false, ..before })
    &&& effects == if before.ticking {
        seq![Effect::StopTicker]
    } else {
        Seq::empty()
    }
    &&& if msg@ == "no_session"@ || (before.screen is Connecting && before.session_key is None
        && before.onboarding.username@.len() == 0) {
        after.screen is Onboarding
    } else {
        after.screen == Screen::AuthError(msg)
    }
}

/// What the end of an authentication does.
pub open spec fn on_auth(before: App, msg: AuthMsg, after: App, effects: Seq<Effect>) -> bool {
    match msg {
        AuthMsg::Success(s) => on_success(before, *s, after, effects),
        AuthMsg::Failure(m) => on_failure(before, m, after, effects),
    }
}

/// What the end of a token refresh does: the session in use gets the new tokens and is saved as
/// before; where the refresh failed, the device authenticates itself again with its signing key.
pub open spec fn on_refresh(before: App, msg: TokenRefreshMsg, after: App, effects: Seq<Effect>) -> bool {
    match msg {
        TokenRefreshMsg::Refreshed { access_token, refresh_token, expires_at } => {
            match before.current_session {
                Some(s) => {
                    let updated = with_tokens(s, access_token, refresh_token, expires_at);
                    &&& after == (App {
                        current_session: Some(updated),
                        access_token,
                        ..before
                    })
                    &&& effects == if before.session_key is Some || before.no_encrypt {
                        seq![
                            refresh_of(updated),
                            Effect::SaveQuietly {
                                session: updated,
                                encrypted: before.session_key is Some,
                            },
                        ]
                    } else {
                        seq![refresh_of(updated)]
                    }
                },
                None => after == before && effects.len() == 0,
            }
        },
        TokenRefreshMsg::Failed(_) => match before.current_session {
            Some(session) => {
                &&& after == before
                &&& effects == seq![Effect::Authenticate { session, again: true }]
            },
            None => {
                &&& after == (App { status: after.status, ..before })
                &&& after.status@ == "Device re-auth failed: no session in memory"@
                &&& effects.len() == 0
            },
        },
    }
}

/// What an event of the messaging core does: a message is added to the conversation, and an error is
/// shown in the status bar.
pub open spec fn on_bridge(before: App, evt: BridgeEvent, fresh: Fresh, after: App) -> bool {
    match evt {
        BridgeEvent::NewMessage { text, .. } => {
            &&& after == (App { chat_view: after.chat_view, ..before })
            &&& after.chat_view == (ChatViewPane {
                messages: after.chat_view.messages,
                scroll_offset: after.chat_view.scroll_offset,
                ..before.chat_view
            })
            &&& after.chat_view.messages@.len() == before.chat_view.messages@.len() + 1
            &&& after.chat_view.messages@.drop_last() == before.chat_view.messages@
            &&& is_message(
                after.chat_view.messages@.last(),
                fresh.message_id@,
                MessageKind::Received,
                text@,
                fresh.time(),
            )
            &&& after.chat_view.scroll_offset == offset_after_new(
                before.chat_view.scroll_offset as int,
            )
        },
        BridgeEvent::MessageDelivered { .. } => after == before,
        BridgeEvent::Error(e) => {
            &&& after == (App { status: after.status, ..before })
            &&& after.status@ == "Bridge error: "@ + e@
        },
    }
}

// ── Keys ─────────────────────────────────────────────────────────────────────

/// Whether nothing happened.
pub open spec fn ignored(before: App, after: App, effects: Seq<Effect>) -> bool {
    after == before && effects.len() == 0
}

/// The client with the focus on a part of the main screen.
pub open spec fn focused_on(app: App, f: Focus) -> App {
    App {
        chat_list: ChatListPane { focused: f == Focus::ContactList, ..app.chat_list },
        chat_view: ChatViewPane {
            focused: f == Focus::ChatView,
            compose_focused: f == Focus::Compose,
            ..app.chat_view
        },
        focus: f,
        ..app
    }
}

/// What a key does on the passphrase screen when a session is unlocked.
pub open spec fn unlock_key(before: App, key: KeyEvent, after: App, effects: Seq<Effect>) -> bool {
    let typed = before.unlock_screen.passphrase@;
    match key.code {
        KeyCode::Backspace | KeyCode::Char(_) => {
            &&& effects.len() == 0
            &&& after == (App { unlock_screen: after.unlock_screen, ..before })
            &&& after.unlock_screen == (UnlockScreen {
                passphrase: after.unlock_screen.passphrase,
                error: None,
                ..before.unlock_screen
            })
            &&& after.unlock_screen.passphrase@ == match key.code {
                KeyCode::Char(c) => typed_within(typed, c, PASSPHRASE_LIMIT),
                _ => without_last(typed),
            }
        },
        KeyCode::Enter => {
            &&& after == (App { unlock_screen: after.unlock_screen, ..before })
            &&& after.unlock_screen == (UnlockScreen {
                passphrase: after.unlock_screen.passphrase,
                error: after.unlock_screen.error,
                ..before.unlock_screen
            })
            &&& after.unlock_screen.passphrase@ == ""@
            &&& if encode_utf8(typed).len() == 0 {
                &&& shows_error(after.unlock_screen, "Enter your passphrase"@)
                &&& effects.len() == 0
            } else {
                &&& after.unlock_screen.error == before.unlock_screen.error
                &&& effects.len() == 1
                &&& effects[0] matches Effect::ReadSession { passphrase }
                &&& passphrase@ == encode_utf8(typed)
            }
        },
        _ => ignored(before, after, effects),
    }
}

/// Whether the passphrase screen shows an error.
pub open spec fn shows_error(s: UnlockScreen, msg: Seq<char>) -> bool {
    s.error is Some && s.error->0@ == msg
}

/// What a key does on the passphrase screen when a new session is protected. Without a passphrase
/// the session is saved in plain text.
pub open spec fn set_passphrase_key(
    before: App,
    key: KeyEvent,
    after: App,
    effects: Seq<Effect>,
) -> bool {
    let typed = before.unlock_screen.passphrase@;
    match key.code {
        KeyCode::Backspace | KeyCode::Char(_) => {
            &&& effects.len() == 0
            &&& after == (App { unlock_screen: after.unlock_screen, ..before })
            &&& after.unlock_screen == (UnlockScreen {
                passphrase: after.unlock_screen.passphrase,
                ..before.unlock_screen
            })
            &&& after.unlock_screen.passphrase@ == match key.code {
                KeyCode::Char(c) => typed_within(typed, c, PASSPHRASE_LIMIT),
                _ => without_last(typed),
            }
        },
        KeyCode::Enter => {
            &&& after == (App {
                unlock_screen: after.unlock_screen,
                pending_session: after.pending_session,
                pending_key: after.pending_key,
                ..before
            })
            &&& after.unlock_screen == (UnlockScreen {
                passphrase: after.unlock_screen.passphrase,
                error: after.unlock_screen.error,
                ..before.unlock_screen
            })
            &&& after.unlock_screen.passphrase@ == ""@
            &&& match before.pending_session {
                None => {
                    &&& after.pending_session is None
                    &&& after.pending_key == before.pending_key
                    &&& after.unlock_screen.error == before.unlock_screen.error
                    &&& effects.len() == 0
                },
                Some(session) => protects(before, session, encode_utf8(typed), after, effects),
            }
        },
        _ => ignored(before, after, effects),
    }
}

/// How a new session is protected with a passphrase: with a key made from it, or not at all where it
/// is empty.
pub open spec fn protects(
    before: App,
    session: Session,
    passphrase: Seq<u8>,
    after: App,
    effects: Seq<Effect>,
) -> bool {
    if passphrase.len() > 0xffff_ffff {
        &&& after.pending_session == Some(session)
        &&& after.pending_key == before.pending_key
        &&& shows_error(
            after.unlock_screen,
            "Key derivation failed: "@ + ConfigError::PassphraseTooLong.text(),
        )
        &&& effects.len() == 0
    } else {
        &&& after.pending_session is None
        &&& after.unlock_screen.error == before.unlock_screen.error
        &&& effects == seq![
            Effect::SaveSession {
                session,
                purpose: SavePurpose::Setup { encrypted: passphrase.len() > 0 },
            },
        ]
        &&& if passphrase.len() > 0 {
            &&& after.pending_key is Some
            &&& (after.pending_key->0).is_derived_from(
                passphrase,
                (after.pending_key->0).master_salt@,
            )
        } else {
            after.pending_key == before.pending_key
        }
    }
}

/// What a key does on the form of the first run.
pub open spec fn onboarding_key(before: App, key: KeyEvent, after: App, effects: Seq<Effect>) -> bool {
    let name = before.onboarding.username@;
    if key.code == KeyCode::Char('q') && key.modifiers == Modifiers::Plain && name.len() == 0 {
        after == (App { running: false, ..before }) && effects.len() == 0
    } else {
        match key.code {
            KeyCode::Tab | KeyCode::BackTab => {
                &&& after == (App {
                    device_link: after.device_link,
                    screen: Screen::DeviceLink,
                    ..before
                })
                &&& after.device_link.is_new()
                &&& effects.len() == 0
            },
            KeyCode::Enter => {
                &&& after == (App {
                    onboarding: OnboardingScreen { status: None, ..before.onboarding },
                    registration: RegistrationScreen { active_step: 0, spinner_tick: 0 },
                    ticking: true,
                    screen: Screen::Registering,
                    ..before
                })
                &&& effects.len() == if before.ticking {
                    3nat
                } else {
                    2nat
                }
                &&& effects[0] matches Effect::Register { username }
                &&& if trimmed(name).len() == 0 {
                    username is None
                } else {
                    username is Some && username->0@ == trimmed(name)
                }
                &&& before.ticking ==> effects[1] is StopTicker
                &&& effects.last() is StartTicker
            },
            KeyCode::Backspace | KeyCode::Char(_) => {
                &&& effects.len() == 0
                &&& after == (App { onboarding: after.onboarding, ..before })
                &&& after.onboarding == (OnboardingScreen {
                    username: after.onboarding.username,
                    status: None,
                    ..before.onboarding
                })
                &&& after.onboarding.username@ == match key.code {
                    KeyCode::Char(c) => typed_within(name, c, USERNAME_LIMIT),
                    _ => without_last(name),
                }
            },
            _ => ignored(before, after, effects),
        }
    }
}

/// What a key does on the form for a link token.
pub open spec fn link_key(before: App, key: KeyEvent, after: App, effects: Seq<Effect>) -> bool {
    let token = before.device_link.token@;
    if (key.code == KeyCode::Esc || key.code == KeyCode::Char('q')) && key.modifiers
        == Modifiers::Plain {
        after == (App { screen: Screen::Onboarding, ..before }) && effects.len() == 0
    } else {
        match key.code {
            KeyCode::Enter => if trimmed(token).len() == 0 {
                &&& effects.len() == 0
                &&& after == (App { device_link: after.device_link, ..before })
                &&& after.device_link == (DeviceLinkScreen {
                    status: after.device_link.status,
                    is_error: true,
                    ..before.device_link
                })
                &&& after.device_link.status is Some
                &&& after.device_link.status->0@ == "Paste the link token first"@
            } else {
                &&& after == (App {
                    device_link: DeviceLinkScreen { status: None, ..before.device_link },
                    screen: after.screen,
                    ..before
                })
                &&& after.screen matches Screen::Connecting(msg)
                &&& msg@ == "Confirming device link…"@
                &&& effects.len() == 1
                &&& effects[0] matches Effect::Link { token: t }
                &&& t@ == trimmed(token)
            },
            KeyCode::Backspace | KeyCode::Char(_) => {
                &&& effects.len() == 0
                &&& after == (App { device_link: after.device_link, ..before })
                &&& after.device_link == (DeviceLinkScreen {
                    token: after.device_link.token,
                    ..before.device_link
                })
                &&& after.device_link.token@ == match key.code {
                    KeyCode::Char(c) => token.push(c),
                    _ => without_last(token),
                }
            },
            _ => ignored(before, after, effects),
        }
    }
}

/// The number of messages that are loaded when a conversation is opened.
pub const HISTORY_LIMIT: usize = 50;

/// What a key does on the main screen with the focus on the contacts.
pub open spec fn contacts_key(before: App, key: KeyEvent, after: App, effects: Seq<Effect>) -> bool {
    let plain = key.modifiers == Modifiers::Plain;
    match key.code {
        KeyCode::Down | KeyCode::Char('j') => {
            &&& after == (App {
                chat_list: ChatListPane {
                    selected: before.chat_list.after_next(),
                    ..before.chat_list
                },
                ..before
            })
            &&& effects.len() == 0
        },
        KeyCode::Up | KeyCode::Char('k') => {
            &&& after == (App {
                chat_list: ChatListPane {
                    selected: before.chat_list.after_prev(),
                    ..before.chat_list
                },
                ..before
            })
            &&& effects.len() == 0
        },
        KeyCode::Tab => after == focused_on(before, Focus::Compose) && effects.len() == 0,
        KeyCode::Enter => match before.chat_list.chosen() {
            Some(c) => {
                &&& after == focused_on(
                    App {
                        chat_view: ChatViewPane {
                            contact_name: c.display_name,
                            messages: after.chat_view.messages,
                            ..before.chat_view
                        },
                        ..before
                    },
                    Focus::ChatView,
                )
                &&& after.chat_view.messages@.len() == 0
                &&& effects == if before.has_storage {
                    seq![Effect::LoadHistory { peer_id: c.id, limit: HISTORY_LIMIT }]
                } else {
                    Seq::empty()
                }
            },
            None => after == focused_on(before, Focus::ChatView) && effects.len() == 0,
        },
        KeyCode::Char(c) => {
            &&& effects.len() == 0
            &&& if plain && c == 'x' {
                after == match before.chat_list.chosen() {
                    Some(contact) => App { delete_confirm: Some(contact.id), ..before },
                    None => before,
                }
            } else if plain && c == 's' {
                after == (App { screen: Screen::Settings, ..before })
            } else if plain && (c == 'n' || c == 'a') {
                &&& after == (App {
                    contact_search: after.contact_search,
                    screen: Screen::ContactSearch,
                    ..before
                })
                &&& after.contact_search.is_new()
            } else if plain && c == 'i' {
                after == focused_on(before, Focus::Compose)
            } else {
                after == before
            }
        },
        _ => ignored(before, after, effects),
    }
}

/// What a key asks for with the focus on the conversation.
#[derive(Debug, Clone, Copy, PartialEq, Eq, Structural)]
pub enum ChatMove {
    Focus(Focus),
    Scroll(Scroll),
    Stay,
}

/// What a key asks for with the focus on the conversation.
pub open spec fn chat_move(code: KeyCode) -> ChatMove {
    match code {
        KeyCode::Tab | KeyCode::Char('i') => ChatMove::Focus(Focus::Compose),
        KeyCode::BackTab | KeyCode::Esc => ChatMove::Focus(Focus::ContactList),
        KeyCode::PageUp | KeyCode::Char('u') => ChatMove::Scroll(Scroll::Up(10)),
        KeyCode::PageDown | KeyCode::Char('d') => ChatMove::Scroll(Scroll::Down(10)),
        KeyCode::Up | KeyCode::Char('k') => ChatMove::Scroll(Scroll::Up(1)),
        KeyCode::Down | KeyCode::Char('j') => ChatMove::Scroll(Scroll::Down(1)),
        KeyCode::Home => ChatMove::Scroll(Scroll::Top),
        KeyCode::End => ChatMove::Scroll(Scroll::Bottom),
        _ => ChatMove::Stay,
    }
}

/// What a key asks for with the focus on the conversation.
fn move_for(code: KeyCode) -> (r: ChatMove)
    ensures
        r == chat_move(code),
{
    match code {
        KeyCode::Tab | KeyCode::Char('i') => ChatMove::Focus(Focus::Compose),
        KeyCode::BackTab | KeyCode::Esc => ChatMove::Focus(Focus::ContactList),
        KeyCode::PageUp | KeyCode::Char('u') => ChatMove::Scroll(Scroll::Up(10)),
        KeyCode::PageDown | KeyCode::Char('d') => ChatMove::Scroll(Scroll::Down(10)),
        KeyCode::Up | KeyCode::Char('k') => ChatMove::Scroll(Scroll::Up(1)),
        KeyCode::Down | KeyCode::Char('j') => ChatMove::Scroll(Scroll::Down(1)),
        KeyCode::Home => ChatMove::Scroll(Scroll::Top),
        KeyCode::End => ChatMove::Scroll(Scroll::Bottom),
        _ => ChatMove::Stay,
    }
}

/// What a key does on the main screen with the focus on the conversation.
pub open spec fn chat_view_key(before: App, key: KeyEvent) -> App {
    match chat_move(key.code) {
        ChatMove::Focus(f) => focused_on(before, f),
        ChatMove::Scroll(s) => App { chat_view: before.chat_view.scrolled(s), ..before },
        ChatMove::Stay => before,
    }
}

/// How what was written is sent: it is shown in the conversation and handed to the messaging core,
/// if that is there and a contact is selected. Blank text is thrown away.
pub open spec fn sends(before: App, fresh: Fresh, after: App, effects: Seq<Effect>) -> bool {
    let text = before.chat_view.compose;
    &&& after == (App { chat_view: after.chat_view, status: after.status, ..before })
    &&& after.chat_view == (ChatViewPane {
        compose: after.chat_view.compose,
        messages: after.chat_view.messages,
        ..before.chat_view
    })
    &&& after.chat_view.compose@ == ""@
    &&& if trimmed(text@).len() == 0 {
        &&& after.chat_view.messages == before.chat_view.messages
        &&& after.status == before.status
        &&& effects.len() == 0
    } else {
        &&& after.status@ == "Message sent"@
        &&& after.chat_view.messages@.len() == before.chat_view.messages@.len() + 1
        &&& after.chat_view.messages@.drop_last() == before.chat_view.messages@
        &&& is_message(
            after.chat_view.messages@.last(),
            fresh.message_id@,
            MessageKind::Sent,
            text@,
            fresh.time(),
        )
        &&& if before.has_orchestrator && before.chat_list.chosen() is Some {
            &&& effects.len() == 1
            &&& effects[0] matches Effect::ToCore(IncomingEvent::OutgoingMessage {
                contact_id,
                message_id,
                plaintext,
                content_type,
            })
            &&& contact_id == (before.chat_list.chosen()->0).id
            &&& message_id == fresh.message_id
            &&& plaintext@ == encode_utf8(text@)
            &&& content_type == 0
        } else {
            effects.len() == 0
        }
    }
}

/// What a key does on the main screen with the focus on the box to write in.
pub open spec fn compose_key(
    before: App,
    key: KeyEvent,
    fresh: Fresh,
    after: App,
    effects: Seq<Effect>,
) -> bool {
    match key.code {
        KeyCode::Esc | KeyCode::BackTab => after == focused_on(before, Focus::ContactList)
            && effects.len() == 0,
        KeyCode::Enter => sends(before, fresh, after, effects),
        KeyCode::Backspace | KeyCode::Char(_) => {
            &&& effects.len() == 0
            &&& after == (App { chat_view: after.chat_view, ..before })
            &&& after.chat_view == (ChatViewPane {
                compose: after.chat_view.compose,
                ..before.chat_view
            })
            &&& after.chat_view.compose@ == match key.code {
                KeyCode::Char(c) => before.chat_view.compose@.push(c),
                _ => without_last(before.chat_view.compose@),
            }
        },
        _ => ignored(before, after, effects),
    }
}

/// Whether `place` is where the first contact with an ID stands in a list, if it does at all.
pub open spec fn is_place_of(contacts: Seq<Contact>, id: Seq<char>, place: Option<usize>) -> bool {
    match place {
        Some(i) => {
            &&& i < contacts.len()
            &&& contacts[i as int].id@ == id
            &&& forall|j: int| 0 <= j < i ==> (#[trigger] contacts[j]).id@ != id
        },
        None => forall|j: int| 0 <= j < contacts.len() ==> (#[trigger] contacts[j]).id@ != id,
    }
}

/// What is done when a contact was deleted: it leaves the list, and the conversation with it is
/// closed.
pub open spec fn forgets(before: App, peer_id: Seq<char>, place: Option<usize>, after: App) -> bool {
    &&& is_place_of(before.chat_list.contacts@, peer_id, place)
    &&& after == (App {
        chat_list: after.chat_list,
        chat_view: after.chat_view,
        status: after.status,
        ..before
    })
    &&& after.status@ == "Node removed."@
    &&& match place {
        Some(i) => removed_at(before.chat_list, i, after.chat_list),
        None => after.chat_list == before.chat_list,
    }
    &&& if before.chat_view.contact_name@ == peer_id || is_place_of(
        after.chat_list.contacts@,
        peer_id,
        None,
    ) {
        &&& after.chat_view == (ChatViewPane {
            messages: after.chat_view.messages,
            contact_name: after.chat_view.contact_name,
            ..before.chat_view
        })
        &&& after.chat_view.messages@.len() == 0
        &&& after.chat_view.contact_name@ == match after.chat_list.chosen() {
            Some(c) => c.display_name@,
            None => ""@,
        }
    } else {
        after.chat_view == before.chat_view
    }
}

/// What a key does while the user is asked whether a contact is to be deleted: `y` deletes it, and
/// everything else does not.
pub open spec fn confirm_key(before: App, key: KeyEvent, after: App, effects: Seq<Effect>) -> bool {
    let asked = App { delete_confirm: None, ..before };
    let peer_id = before.delete_confirm->0;
    if key.code == KeyCode::Char('y') || key.code == KeyCode::Char('Y') {
        if before.has_storage {
            &&& after == asked
            &&& effects == seq![Effect::DeleteContact { peer_id }]
        } else {
            &&& exists|place: Option<usize>| #[trigger] forgets(asked, peer_id@, place, after)
            &&& effects.len() == 0
        }
    } else {
        after == asked && effects.len() == 0
    }
}

/// What a key does on the main screen.
pub open spec fn main_key(
    before: App,
    key: KeyEvent,
    fresh: Fresh,
    after: App,
    effects: Seq<Effect>,
) -> bool {
    if before.delete_confirm is Some {
        confirm_key(before, key, after, effects)
    } else if is_quit(key) && before.focus != Focus::Compose {
        after == (App { running: false, ..before }) && effects.len() == 0
    } else {
        match before.focus {
            Focus::ContactList => contacts_key(before, key, after, effects),
            Focus::ChatView => after == chat_view_key(before, key) && effects.len() == 0,
            Focus::Compose => compose_key(before, key, fresh, after, effects),
        }
    }
}

/// Whether the safety number of a contact is shown. `their_key` is the contact's identity key as it
/// is stored; one that is missing or cannot be read counts as 32 zeros.
pub open spec fn shows_safety(
    before: App,
    contact_name: Seq<char>,
    our_key: Seq<u8>,
    their_key: Option<Seq<char>>,
    after: App,
) -> bool {
    let theirs = match their_key {
        Some(t) => match base64_bytes(t) {
            Some(v) => if t.len() > 0 {
                v
            } else {
                Seq::empty()
            },
            None => Seq::empty(),
        },
        None => Seq::empty(),
    };
    &&& after == (App {
        safety_number: after.safety_number,
        screen: Screen::SafetyNumber,
        ..before
    })
    &&& after.safety_number is Some
    &&& (after.safety_number->0).contact_name@ == contact_name
    &&& (after.safety_number->0).number@ == safety_number(key32(our_key), key32(theirs))
}

/// How the safety number of the selected contact is asked for.
pub open spec fn opens_safety(before: App, after: App, effects: Seq<Effect>) -> bool {
    match (before.chat_list.chosen(), before.our_identity_key) {
        (None, _) => {
            &&& after == (App { status: after.status, ..before })
            &&& after.status@ == "Select a contact first"@
            &&& effects.len() == 0
        },
        (Some(_), None) => {
            &&& after == (App { status: after.status, ..before })
            &&& after.status@ == "Identity key not available"@
            &&& effects.len() == 0
        },
        (Some(c), Some(our_key)) => if before.has_storage {
            &&& after == before
            &&& effects == seq![
                Effect::LookUpContact { contact_id: c.id, contact_name: c.display_name },
            ]
        } else {
            &&& shows_safety(before, c.display_name@, our_key@, None, after)
            &&& effects.len() == 0
        },
    }
}

/// How the own public identity key is exported.
pub open spec fn exports(before: App, after: App, effects: Seq<Effect>) -> bool {
    match before.our_identity_key {
        None => {
            &&& after == (App { status: after.status, ..before })
            &&& after.status@ == "Identity key not available"@
            &&& effects.len() == 0
        },
        Some(key) => {
            &&& after == before
            &&& effects.len() == 1
            &&& effects[0] matches Effect::ExportIdentity { contents }
            &&& contents@ == "identity_public_key_hex="@ + bytes_hex(key@) + "\nuser_id="@
                + before.user_id@ + "\n"@
        },
    }
}

/// What an action of the settings does.
pub open spec fn settings_action(
    before: App,
    action: SettingsAction,
    after: App,
    effects: Seq<Effect>,
) -> bool {
    match action {
        SettingsAction::Back => after == (App { screen: Screen::Main, ..before })
            && effects.len() == 0,
        SettingsAction::Logout => after == before && effects == seq![Effect::ClearSession],
        SettingsAction::ShowSafetyNumber => opens_safety(before, after, effects),
        SettingsAction::ExportKeys => exports(before, after, effects),
        SettingsAction::ShowMyQr => after == (App { screen: Screen::IdentityQr, ..before })
            && effects.len() == 0,
    }
}

/// The action that a key stands for on the settings screen.
pub open spec fn shortcut(s: SettingsScreen, code: KeyCode) -> Option<SettingsAction> {
    match code {
        KeyCode::Esc | KeyCode::Char('q') | KeyCode::Char('b') | KeyCode::Char('B') => Some(
            SettingsAction::Back,
        ),
        KeyCode::Enter => s.confirmed(),
        KeyCode::Char('l') | KeyCode::Char('L') => Some(SettingsAction::Logout),
        KeyCode::Char('Q') => Some(SettingsAction::ShowMyQr),
        KeyCode::Char('s') | KeyCode::Char('S') => Some(SettingsAction::ShowSafetyNumber),
        KeyCode::Char('e') | KeyCode::Char('E') => Some(SettingsAction::ExportKeys),
        _ => None,
    }
}

/// What a key does on the settings screen.
pub open spec fn settings_key(before: App, key: KeyEvent, after: App, effects: Seq<Effect>) -> bool {
    match key.code {
        KeyCode::Up | KeyCode::Char('k') => {
            &&& after == (App {
                settings_screen: SettingsScreen {
                    selected: row_before(before.settings_screen.selected),
                    ..before.settings_screen
                },
                ..before
            })
            &&& effects.len() == 0
        },
        KeyCode::Down | KeyCode::Char('j') => {
            &&& after == (App {
                settings_screen: SettingsScreen {
                    selected: next_setting(before.settings_screen.selected),
                    ..before.settings_screen
                },
                ..before
            })
            &&& effects.len() == 0
        },
        code => match shortcut(before.settings_screen, code) {
            Some(action) => settings_action(before, action, after, effects),
            None => ignored(before, after, effects),
        },
    }
}

/// How the selected user is added as a contact: saved and subscribed to, as far as there are a
/// database and a stream, and put into the list.
pub open spec fn adds_contact(before: App, after: App, effects: Seq<Effect>) -> bool {
    match before.contact_search.chosen() {
        Some(found) => {
            &&& after == (App {
                chat_list: after.chat_list,
                status: after.status,
                contact_search: after.contact_search,
                screen: Screen::Main,
                ..before
            })
            &&& after.chat_list.contacts@ == before.chat_list.contacts@.push(
                Contact {
                    id: found.user_id,
                    display_name: found.display_name,
                    unread: 0,
                    last_message: None,
                },
            )
            &&& after.chat_list.selected == if before.chat_list.selected is None {
                Some(0usize)
            } else {
                before.chat_list.selected
            }
            &&& after.chat_list.focused == before.chat_list.focused
            &&& after.status@ == "Added @"@ + found.username@
            &&& after.contact_search.is_new()
            &&& effects.len() == (if before.has_storage {
                1nat
            } else {
                0nat
            }) + (if before.has_stream {
                1nat
            } else {
                0nat
            })
            &&& before.has_storage ==> {
                &&& effects[0] matches Effect::UpsertContact(c)
                &&& c.user_id == found.user_id
                &&& c.display_name == found.display_name
                &&& c.identity_key_b64@ == ""@
            }
            &&& before.has_stream ==> {
                &&& effects.last() matches Effect::ToStream(StreamCmd::Subscribe(ids, cursor))
                &&& ids@ == seq![found.user_id]
                &&& cursor is None
            }
        },
        None => ignored(before, after, effects),
    }
}

/// What a key does in the search for contacts.
pub open spec fn search_key(before: App, key: KeyEvent, after: App, effects: Seq<Effect>) -> bool {
    let search = before.contact_search;
    let query = search.query@;
    if key.code == KeyCode::Char('a') && key.modifiers == Modifiers::Control {
        adds_contact(before, after, effects)
    } else {
        match key.code {
            KeyCode::Esc => {
                &&& after == (App {
                    contact_search: after.contact_search,
                    screen: Screen::Main,
                    ..before
                })
                &&& after.contact_search.is_new()
                &&& effects.len() == 0
            },
            KeyCode::Down | KeyCode::Tab => {
                &&& after == (App {
                    contact_search: ContactSearchScreen {
                        selected: search.after_next(),
                        ..search
                    },
                    ..before
                })
                &&& effects.len() == 0
            },
            KeyCode::Up | KeyCode::BackTab => {
                &&& after == (App {
                    contact_search: ContactSearchScreen {
                        selected: row_before(search.selected),
                        ..search
                    },
                    ..before
                })
                &&& effects.len() == 0
            },
            KeyCode::Enter => if trimmed(query).len() == 0 {
                ignored(before, after, effects)
            } else {
                &&& after == (App {
                    contact_search: ContactSearchScreen { searching: true, ..search },
                    ..before
                })
                &&& effects.len() == 1
                &&& effects[0] matches Effect::Search { query: q }
                &&& q@ == trimmed(query)
            },
            KeyCode::Backspace | KeyCode::Char(_) => {
                &&& effects.len() == 0
                &&& after == (App { contact_search: after.contact_search, ..before })
                &&& after.contact_search == (ContactSearchScreen {
                    query: after.contact_search.query,
                    status: None,
                    ..search
                })
                &&& after.contact_search.query@ == match key.code {
                    KeyCode::Char(c) => query.push(c),
                    _ => without_last(query),
                }
            },
            _ => ignored(before, after, effects),
        }
    }
}

/// What a key does. Ctrl+C quits on every screen.
pub open spec fn on_key(
    before: App,
    key: KeyEvent,
    fresh: Fresh,
    after: App,
    effects: Seq<Effect>,
) -> bool {
    if !key.pressed {
        ignored(before, after, effects)
    } else if is_interrupt(key) {
        after == (App { running: false, ..before }) && effects.len() == 0
    } else {
        match before.screen {
            Screen::Startup | Screen::Registering => ignored(before, after, effects),
            Screen::Connecting(_) => ignored(before, after, effects),
            Screen::AuthError(_) => {
                &&& effects.len() == 0
                &&& if before.session_key is Some {
                    &&& after == (App {
                        unlock_screen: after.unlock_screen,
                        screen: Screen::Unlock,
                        ..before
                    })
                    &&& after.unlock_screen.passphrase@ == ""@
                    &&& after.unlock_screen.error is None
                    &&& after.unlock_screen.mode == UnlockMode::Unlock
                } else {
                    after == (App { screen: Screen::Onboarding, ..before })
                }
            },
            Screen::Unlock => unlock_key(before, key, after, effects),
            Screen::SetPassphrase => set_passphrase_key(before, key, after, effects),
            Screen::Onboarding => onboarding_key(before, key, after, effects),
            Screen::DeviceLink => link_key(before, key, after, effects),
            Screen::Main => main_key(before, key, fresh, after, effects),
            Screen::Settings => settings_key(before, key, after, effects),
            Screen::ContactSearch => search_key(before, key, after, effects),
            Screen::SafetyNumber | Screen::IdentityQr => {
                after == (App { screen: Screen::Settings, ..before }) && effects.len() == 0
            },
        }
    }
}

// ── Background events ────────────────────────────────────────────────────────

/// What a report of a background task does. When a registration ends, the spinner stops and all
/// steps are shown as done before the result is looked at.
pub open spec fn on_internal(
    before: App,
    event: InternalEvent,
    fresh: Fresh,
    after: App,
    effects: Seq<Effect>,
) -> bool {
    match event {
        InternalEvent::Auth(msg) => if before.screen is Registering {
            let done = App {
                ticking: false,
                registration: RegistrationScreen {
                    active_step: STEP_COUNT,
                    ..before.registration
                },
                ..before
            };
            if before.ticking {
                &&& effects.len() > 0
                &&& effects[0] is StopTicker
                &&& on_auth(done, msg, after, effects.skip(1))
            } else {
                on_auth(done, msg, after, effects)
            }
        } else {
            on_auth(before, msg, after, effects)
        },
        InternalEvent::TokenRefresh(msg) => on_refresh(before, msg, after, effects),
        InternalEvent::Bridge(evt) => on_bridge(before, evt, fresh, after) && effects.len() == 0,
        InternalEvent::ContactSearchResult(results) => {
            &&& after == (App { contact_search: after.contact_search, ..before })
            &&& shows_results(before.contact_search, results, after.contact_search)
            &&& effects.len() == 0
        },
        InternalEvent::ContactSearchError(msg) => {
            &&& after == (App {
                contact_search: ContactSearchScreen {
                    status: Some(msg),
                    is_error: true,
                    searching: false,
                    ..before.contact_search
                },
                ..before
            })
            &&& effects.len() == 0
        },
        InternalEvent::RegistrationStep(step) => {
            &&& after == (App {
                registration: RegistrationScreen {
                    active_step: if step.place() > before.registration.active_step {
                        step.place()
                    } else {
                        before.registration.active_step
                    },
                    ..before.registration
                },
                ..before
            })
            &&& effects.len() == 0
        },
        InternalEvent::Tick => {
            &&& after == if before.screen is Registering {
                App {
                    registration: RegistrationScreen {
                        spinner_tick: ((before.registration.spinner_tick + 1) % 256) as u8,
                        ..before.registration
                    },
                    ..before
                }
            } else {
                before
            }
            &&& effects.len() == 0
        },
    }
}

// ── Replies ──────────────────────────────────────────────────────────────────

/// What is done when a session was saved or could not be.
pub open spec fn on_saved(
    before: App,
    session: Session,
    purpose: SavePurpose,
    result: Result<(), String>,
    after: App,
    effects: Seq<Effect>,
) -> bool {
    match (purpose, result) {
        (SavePurpose::Login { .. }, Ok(_)) => {
            &&& after == (App { status: after.status, screen: Screen::Main, ..before })
            &&& starts_current(before, after, effects)
        },
        (SavePurpose::Login { .. }, Err(e)) => {
            &&& after == (App { screen: after.screen, ..before })
            &&& after.screen matches Screen::AuthError(msg)
            &&& msg@ == "Save failed: "@ + e@
            &&& effects.len() == 0
        },
        (SavePurpose::Setup { encrypted }, Ok(_)) => {
            &&& after == (App {
                status: after.status,
                screen: Screen::Main,
                session_key: if encrypted {
                    before.pending_key
                } else {
                    before.session_key
                },
                pending_key: if encrypted {
                    None
                } else {
                    before.pending_key
                },
                no_encrypt: before.no_encrypt || !encrypted,
                ..before
            })
            &&& starts_current(before, after, effects)
        },
        (SavePurpose::Setup { .. }, Err(e)) => {
            &&& after == (App {
                unlock_screen: UnlockScreen {
                    error: after.unlock_screen.error,
                    ..before.unlock_screen
                },
                pending_session: Some(session),
                pending_key: None,
                ..before
            })
            &&& shows_error(after.unlock_screen, "Save failed: "@ + e@)
            &&& effects.len() == 0
        },
    }
}

/// How the messaging core is started for the session in use, if there is one.
pub open spec fn starts_current(before: App, after: App, effects: Seq<Effect>) -> bool {
    match before.current_session {
        Some(s) => core_start(s, before.status@, after.status@, effects),
        None => after.status == before.status && effects.len() == 0,
    }
}

/// What is done with the session file and a passphrase: the key is derived with the stored salt and
/// the session is decrypted with it.
pub open spec fn on_session_read(
    before: App,
    passphrase: Seq<u8>,
    file: SessionFile,
    after: App,
    effects: Seq<Effect>,
) -> bool {
    match stored_salt(file) {
        Ok(None) => {
            &&& refuses(before, "No session found"@, after)
            &&& effects.len() == 0
        },
        Err(_) => {
            &&& refuses(before, "Wrong passphrase or corrupted session"@, after)
            &&& effects.len() == 0
        },
        Ok(Some(salt)) => if passphrase.len() > 0xffff_ffff {
            &&& refuses(before, "Wrong passphrase or corrupted session"@, after)
            &&& effects.len() == 0
        } else {
            match opened_session(file->Encrypted_0, session_key_of(passphrase, salt)) {
                Ok(plain) => {
                    &&& after == (App { pending_key: after.pending_key, ..before })
                    &&& after.pending_key is Some
                    &&& (after.pending_key->0).is_derived_from(passphrase, salt)
                    &&& effects.len() == 1
                    &&& effects[0] matches Effect::ParseSession { text }
                    &&& text@ == plain
                },
                Err(e) => {
                    &&& refuses(before, "Session corrupted: "@ + e.text(), after)
                    &&& effects.len() == 0
                },
            }
        },
    }
}

/// Whether an error is shown on the passphrase screen and nothing else changed.
pub open spec fn refuses(before: App, msg: Seq<char>, after: App) -> bool {
    &&& after == (App {
        unlock_screen: UnlockScreen {
            error: after.unlock_screen.error,
            ..before.unlock_screen
        },
        ..before
    })
    &&& shows_error(after.unlock_screen, msg)
}

/// What is done with a session that was decrypted: its key is put to use and the device authenticates
/// itself.
pub open spec fn on_session_parsed(
    before: App,
    result: Result<Session, String>,
    after: App,
    effects: Seq<Effect>,
) -> bool {
    match result {
        Ok(session) => {
            &&& after == (App {
                session_key: before.pending_key,
                pending_key: None,
                screen: after.screen,
                ..before
            })
            &&& after.screen matches Screen::Connecting(msg)
            &&& msg@ == "Authenticating…"@
            &&& effects == seq![Effect::Authenticate { session, again: false }]
        },
        Err(e) => {
            &&& refuses(
                App { pending_key: None, ..before },
                "Session corrupted: "@ + e@,
                after,
            )
            &&& effects.len() == 0
        },
    }
}

/// The messages of a conversation as they are shown.
pub open spec fn are_shown(messages: Seq<ChatMessage>, history: Seq<StoredMessage>) -> bool {
    &&& messages.len() == history.len()
    &&& forall|i: int|
        0 <= i < history.len() ==> is_message(
            #[trigger] messages[i],
            history[i].id@,
            if history[i].direction@ == "sent"@ {
                MessageKind::Sent
            } else {
                MessageKind::Received
            },
            history[i].text@,
            message_time_text(history[i].timestamp_ms),
        )
}

/// What is done when the messaging core is ready: the stream and the task that runs the core are
/// started, the core is told, and the one-time pre-keys are uploaded, if there are any.
pub open spec fn on_core_prepared(
    before: App,
    contact_ids: Vec<String>,
    identity_key: Option<Vec<u8>>,
    otpk_count: usize,
    after: App,
    effects: Seq<Effect>,
) -> bool {
    &&& after == (App {
        our_identity_key: identity_key,
        has_stream: true,
        has_orchestrator: true,
        ..before
    })
    &&& effects == seq![
        Effect::SpawnStream { access_token: before.access_token, contact_ids },
        Effect::SpawnOrchestrator {
            access_token: before.access_token,
            user_id: before.user_id,
            device_id: before.device_id,
        },
        Effect::ToCore(IncomingEvent::AppLaunched),
    ] + if otpk_count > 0 {
        seq![
            Effect::UploadOtpks {
                access_token: before.access_token,
                user_id: before.user_id,
                device_id: before.device_id,
            },
        ]
    } else {
        Seq::empty()
    }
}

/// Whether the keys, the sessions, the tokens, the IDs, the contacts, the conversation with what was
/// being written, the search and the name on the form of the first run are gone.
pub open spec fn is_signed_out(before: App, after: App) -> bool {
    &&& after.session_key is None
    &&& after.pending_key is None
    &&& after.current_session is None
    &&& after.pending_session is None
    &&& after.our_identity_key is None
    &&& after.user_id@ == ""@
    &&& after.device_id@ == ""@
    &&& after.access_token@ == ""@
    &&& after.connection == ConnectionState::Disconnected
    &&& after.contact_search.is_new()
    &&& after.chat_list.contacts@.len() == 0
    &&& after.chat_list.selected is None
    &&& after.chat_view.is_new(""@)
    &&& after.settings_screen.selected == Some(6usize) && after.settings_screen.offset == 0
    &&& after.settings_screen.shows(
        before.server_url@,
        transport_name(before.transport),
        "—"@,
        "—"@,
        before.pq_active,
    )
    &&& after.onboarding.is_new()
    &&& !after.has_orchestrator && !after.has_stream && !after.has_storage
}

/// What is done when the session file was deleted or could not be.
pub open spec fn on_cleared(
    before: App,
    result: Result<(), String>,
    after: App,
    effects: Seq<Effect>,
) -> bool {
    match result {
        Ok(_) => {
            &&& is_signed_out(before, after)
            &&& after.screen is Onboarding
            &&& after == (App {
                screen: after.screen,
                onboarding: after.onboarding,
                session_key: None,
                pending_key: None,
                current_session: None,
                pending_session: None,
                chat_list: after.chat_list,
                chat_view: after.chat_view,
                user_id: after.user_id,
                device_id: after.device_id,
                access_token: after.access_token,
                connection: after.connection,
                settings_screen: after.settings_screen,
                contact_search: after.contact_search,
                has_orchestrator: false,
                has_stream: false,
                has_storage: false,
                our_identity_key: None,
                focus: Focus::ContactList,
                ..before
            })
            &&& effects.len() == if before.has_stream {
                3nat
            } else {
                2nat
            }
            &&& effects[0] is StopCore
            &&& before.has_stream ==> effects[1] == Effect::ToStream(StreamCmd::Shutdown)
            &&& effects.last() is CloseStorage
        },
        Err(e) => {
            &&& after == (App { status: after.status, ..before })
            &&& after.status@ == "Logout error: "@ + e@
            &&& effects.len() == 0
        },
    }
}

/// What the answer to an effect does.
pub open spec fn on_reply(before: App, reply: Reply, after: App, effects: Seq<Effect>) -> bool {
    match reply {
        Reply::Saved { session, purpose, result } => on_saved(
            before,
            session,
            purpose,
            result,
            after,
            effects,
        ),
        Reply::SessionRead { passphrase, file } => on_session_read(
            before,
            passphrase@,
            file,
            after,
            effects,
        ),
        Reply::SessionParsed(result) => on_session_parsed(before, result, after, effects),
        Reply::ClientBuilt(result) => match result {
            Ok(_) => after == before && effects == seq![
                Effect::OpenStorage { encrypted: before.session_key is Some },
            ],
            Err(e) => {
                &&& after == (App { status: after.status, ..before })
                &&& after.status@ == "Orchestrator init error: "@ + e@
                &&& effects.len() == 0
            },
        },
        Reply::StorageOpened(result) => match result {
            Ok(_) => after == before && effects == seq![Effect::LoadContacts],
            Err(e) => {
                &&& after == (App { status: after.status, ..before })
                &&& after.status@ == "Storage open error: "@ + e@
                &&& effects.len() == 0
            },
        },
        Reply::ContactsLoaded(loaded) => {
            &&& after == (App { chat_list: after.chat_list, has_storage: true, ..before })
            &&& effects.len() == 1
            &&& effects[0] matches Effect::PrepareCore { contact_ids }
            &&& match loaded {
                Some(stored) => {
                    &&& contact_ids@ == stored@.map_values(|c: StoredContact| c.user_id)
                    &&& are_loaded(after.chat_list.contacts@, stored@)
                    &&& after.chat_list.selected == if stored@.len() > 0 {
                        Some(0usize)
                    } else {
                        None
                    }
                    &&& after.chat_list.focused == before.chat_list.focused
                },
                None => contact_ids@.len() == 0 && after.chat_list == before.chat_list,
            }
        },
        Reply::CorePrepared { contact_ids, identity_key, otpk_count } => on_core_prepared(
            before,
            contact_ids,
            identity_key,
            otpk_count,
            after,
            effects,
        ),
        Reply::HistoryLoaded(history) => {
            &&& effects.len() == 0
            &&& match history {
                Some(h) => {
                    let n = before.chat_view.messages@.len() as int;
                    &&& after == (App { chat_view: after.chat_view, ..before })
                    &&& after.chat_view == (ChatViewPane {
                        messages: after.chat_view.messages,
                        ..before.chat_view
                    })
                    &&& after.chat_view.messages@.len() >= n
                    &&& after.chat_view.messages@.take(n) == before.chat_view.messages@
                    &&& are_shown(after.chat_view.messages@.skip(n), h@)
                },
                None => after == before,
            }
        },
        Reply::ContactFound { contact_name, identity_key_b64 } => {
            &&& effects.len() == 0
            &&& match before.our_identity_key {
                Some(our_key) => shows_safety(
                    before,
                    contact_name@,
                    our_key@,
                    match identity_key_b64 {
                        Some(t) => Some(t@),
                        None => None,
                    },
                    after,
                ),
                None => after == before,
            }
        },
        Reply::Exported { path, result } => {
            &&& effects.len() == 0
            &&& after == (App { status: after.status, ..before })
            &&& after.status@ == match result {
                Ok(_) => "Key exported → "@ + path@,
                Err(e) => "Export failed: "@ + e@,
            }
        },
        Reply::Deleted { peer_id, result } => {
            &&& effects.len() == 0
            &&& match result {
                Ok(_) => exists|place: Option<usize>|
                    #[trigger] forgets(before, peer_id@, place, after),
                Err(e) => {
                    &&& after == (App { status: after.status, ..before })
                    &&& after.status@ == "Delete failed: "@ + e@
                },
            }
        },
        Reply::SessionCleared(result) => on_cleared(before, result, after, effects),
    }
}

impl App {
    /// What holds of the client at all times: what is selected is there, and the focus is on exactly
    /// one part of the main screen.
    pub open spec fn wf(self) -> bool {
        &&& self.chat_list.wf()
        &&& self.settings_screen.wf()
        &&& self.chat_list.focused == (self.focus == Focus::ContactList)
        &&& self.chat_view.focused == (self.focus == Focus::ChatView)
        &&& self.chat_view.compose_focused == (self.focus == Focus::Compose)
        &&& self.session_key is Some ==> (self.session_key->0).wf()
        &&& self.pending_key is Some ==> (self.pending_key->0).wf()
    }

    /// The client before anything happened.
    pub fn new(cfg: AppConfig) -> (r: Self)
        ensures
            r.wf(),
            r.screen is Startup,
            r.running,
            r.status@ == "Ready"@,
            r.no_encrypt == cfg.no_encrypt,
            r.server_url == cfg.server_url,
            r.transport == cfg.transport,
            r.pq_active == cfg.pq_active,
            r.session_key is None && r.pending_key is None && r.current_session is None
                && r.pending_session is None && r.our_identity_key is None,
            r.user_id@ == ""@ && r.device_id@ == ""@ && r.access_token@ == ""@,
            r.focus == Focus::ContactList,
            r.chat_list.contacts@.len() == 0 && r.chat_list.selected is None,
            r.chat_view.is_new(""@),
            r.onboarding.is_new(),
            r.registration == (RegistrationScreen { active_step: 0, spinner_tick: 0 }),
            r.connection == ConnectionState::Disconnected,
            r.settings_screen.shows(
                cfg.server_url@,
                transport_name(cfg.transport),
                "—"@,
                "—"@,
                cfg.pq_active,
            ),
            r.settings_screen.selected == Some(6usize) && r.settings_screen.offset == 0,
            !r.ticking && !r.has_orchestrator && !r.has_stream && !r.has_storage,
            r.safety_number is None && r.delete_confirm is None,
            r.unlock_screen.mode == UnlockMode::Unlock && r.unlock_screen.passphrase@ == ""@
                && r.unlock_screen.error is None,
            r.contact_search.is_new() && r.device_link.is_new(),
    {
        let settings_screen = SettingsScreen::new(
            cfg.server_url.as_str(),
            transport_label(&cfg.transport),
            "—",
            "—",
            cfg.pq_active,
        );
        App {
            screen: Screen::Startup,
            onboarding: OnboardingScreen::new(),
            device_link: DeviceLinkScreen::new(),
            unlock_screen: UnlockScreen::new(UnlockMode::Unlock),
            registration: RegistrationScreen::new(),
            ticking: false,
            session_key: None,
            pending_key: None,
            current_session: None,
            pending_session: None,
            no_encrypt: cfg.no_encrypt,
            focus: Focus::ContactList,
            chat_list: ChatListPane::new(),
            chat_view: ChatViewPane::new("".to_string()),
            status: "Ready".to_string(),
            running: true,
            server_url: cfg.server_url,
            transport: cfg.transport,
            user_id: "".to_string(),
            pq_active: cfg.pq_active,
            connection: ConnectionState::Disconnected,
            settings_screen,
            contact_search: ContactSearchScreen::new(),
            safety_number: None,
            has_orchestrator: false,
            has_stream: false,
            has_storage: false,
            device_id: "".to_string(),
            access_token: "".to_string(),
            our_identity_key: None,
            delete_confirm: None,
        }
    }

    /// Takes what became of the list of the screen when it was painted: which item is selected, and
    /// the item from which on it was shown. The settings always have all their rows, so what is
    /// selected there stays.
    pub fn list_shown(&mut self, selected: Option<usize>, offset: usize)
        requires
            old(self).wf(),
        ensures
            final(self).wf(),
            *final(self) == match old(self).screen {
                Screen::Settings => App {
                    settings_screen: SettingsScreen { offset, ..old(self).settings_screen },
                    ..*old(self)
                },
                Screen::ContactSearch => App {
                    contact_search: ContactSearchScreen {
                        selected,
                        offset,
                        ..old(self).contact_search
                    },
                    ..*old(self)
                },
                _ => *old(self),
            },
    {
        match self.screen {
            Screen::Settings => {
                self.settings_screen.offset = offset;
            },
            Screen::ContactSearch => {
                self.contact_search.selected = selected;
                self.contact_search.offset = offset;
            },
            _ => {},
        }
    }

    // ── Startup and authentication ───────────────────────────────────────────

    /// Decides by the saved session what is shown first: an encrypted one is unlocked, a plain one
    /// restored, and without one the first run begins.
    pub fn startup_check(&mut self, state: SessionState) -> (r: Vec<Effect>)
        requires
            old(self).wf(),
        ensures
            final(self).wf(),
            on_startup(*old(self), state, *final(self), r@),
    {
        match state {
            SessionState::Encrypted => {
                self.screen = Screen::Unlock;
                nothing()
            },
            SessionState::Plaintext => {
                self.screen = Screen::Connecting("Restoring session…".to_string());
                just(Effect::RestoreFromDisk)
            },
            SessionState::Absent => {
                self.screen = Screen::Onboarding;
                nothing()
            },
        }
    }

    /// Asks for the messaging core to be made from the keys of a session.
    fn start_orchestrator(&mut self, session: &Session) -> (r: Vec<Effect>)
        ensures
            *final(self) == (App { status: final(self).status, ..*old(self) }),
            core_start(*session, old(self).status@, final(self).status@, r@),
    {
        let identity = match from_hex(session.identity_key_hex.as_str()) {
            Ok(v) => v,
            Err(e) => {
                self.status = cat2("Orchestrator key decode error: ", e.as_str());
                return nothing();
            },
        };
        let signing = match from_hex(session.signing_key_hex.as_str()) {
            Ok(v) => v,
            Err(e) => {
                self.status = cat2("Orchestrator key decode error: ", e.as_str());
                return nothing();
            },
        };
        let spk = match from_hex(session.spk_key_hex.as_str()) {
            Ok(v) => v,
            Err(e) => {
                self.status = cat2("Orchestrator key decode error: ", e.as_str());
                return nothing();
            },
        };
        let spk_sig = match from_hex(session.spk_sig_hex.as_str()) {
            Ok(v) => v,
            Err(e) => {
                self.status = cat2("Orchestrator key decode error: ", e.as_str());
                return nothing();
            },
        };
        just(Effect::BuildClient { identity, signing, spk, spk_sig })
    }

    /// Stops the spinner, if it turns.
    fn stop_ticker(&mut self) -> (r: Vec<Effect>)
        ensures
            *final(self) == (App { ticking: false, ..*old(self) }),
            r@ == if old(self).ticking {
                seq![Effect::StopTicker]
            } else {
                Seq::empty()
            },
    {
        if self.ticking {
            self.ticking = false;
            just(Effect::StopTicker)
        } else {
            nothing()
        }
    }

    /// Goes on after a successful authentication.
    fn on_signed_in(&mut self, s: AuthSuccess) -> (r: Vec<Effect>)
        requires
            old(self).wf(),
        ensures
            final(self).wf(),
            on_success(*old(self), s, *final(self), r@),
    {
        self.status = cat2("Connected as ", s.user_id.as_str());
        self.connection = ConnectionState::Connected {
            transport: transport_label(&self.transport).to_string(),
            latency_ms: None,
        };
        self.settings_screen.update(
            self.server_url.as_str(),
            transport_label(&self.transport),
            s.device_id.as_str(),
            s.user_id.as_str(),
            self.pq_active,
        );
        self.user_id = s.user_id.clone();
        self.device_id = s.device_id.clone();
        self.access_token = s.access_token.clone();
        self.current_session = Some(s.full_session.clone());
        match s.pending_save {
            Some(session) => {
                let mut effects = just(
                    Effect::StartTokenRefresh {
                        device_id: session.device_id.clone(),
                        refresh_token: session.refresh_token.clone(),
                        expires_at: session.expires_at,
                    },
                );
                if self.session_key.is_some() {
                    effects.push(
                        Effect::SaveSession {
                            session,
                            purpose: SavePurpose::Login { encrypted: true },
                        },
                    );
                } else if self.no_encrypt {
                    effects.push(
                        Effect::SaveSession {
                            session,
                            purpose: SavePurpose::Login { encrypted: false },
                        },
                    );
                } else {
                    self.pending_session = Some(session);
                    self.unlock_screen.reset_for_mode(UnlockMode::SetNew);
                    self.screen = Screen::SetPassphrase;
                }
                effects
            },
            None => {
                let effects = self.start_orchestrator(&s.full_session);
                self.screen = Screen::Main;
                effects
            },
        }
    }

    /// Takes the end of an authentication.
    pub fn handle_auth_msg(&mut self, msg: AuthMsg) -> (r: Vec<Effect>)
        requires
            old(self).wf(),
        ensures
            final(self).wf(),
            on_auth(*old(self), msg, *final(self), r@),
    {
        match msg {
            AuthMsg::Success(s) => self.on_signed_in(*s),
            AuthMsg::Failure(m) => {
                let effects = self.stop_ticker();
                let restoring = match &self.screen {
                    Screen::Connecting(_) => self.session_key.is_none()
                        && self.onboarding.username.as_str().is_empty(),
                    _ => false,
                };
                if same_text(m.as_str(), "no_session") || restoring {
                    self.screen = Screen::Onboarding;
                } else {
                    self.screen = Screen::AuthError(m);
                }
                effects
            },
        }
    }

    /// The session in use with other tokens, if there is one.
    fn build_updated_session(
        &self,
        access_token: String,
        refresh_token: String,
        expires_at: i64,
    ) -> (r: Option<Session>)
        ensures
            r == match self.current_session {
                Some(s) => Some(with_tokens(s, access_token, refresh_token, expires_at)),
                None => None,
            },
    {
        match &self.current_session {
            Some(s) => {
                let mut session = s.clone();
                session.access_token = access_token;
                session.refresh_token = refresh_token;
                session.expires_at = expires_at;
                Some(session)
            },
            None => None,
        }
    }

    /// Takes the end of a token refresh.
    pub fn handle_token_refresh_msg(&mut self, msg: TokenRefreshMsg) -> (r: Vec<Effect>)
        requires
            old(self).wf(),
        ensures
            final(self).wf(),
            on_refresh(*old(self), msg, *final(self), r@),
    {
        match msg {
            TokenRefreshMsg::Refreshed { access_token, refresh_token, expires_at } => {
                let token = access_token.clone();
                match self.build_updated_session(access_token, refresh_token, expires_at) {
                    Some(session) => {
                        let mut effects = just(
                            Effect::StartTokenRefresh {
                                device_id: session.device_id.clone(),
                                refresh_token: session.refresh_token.clone(),
                                expires_at: session.expires_at,
                            },
                        );
                        self.current_session = Some(session.clone());
                        self.access_token = token;
                        if self.session_key.is_some() || self.no_encrypt {
                            let encrypted = self.session_key.is_some();
                            effects.push(Effect::SaveQuietly { session, encrypted });
                            assert(effects@ == seq![
                                refresh_of(session),
                                Effect::SaveQuietly { session, encrypted },
                            ]);
                        }
                        effects
                    },
                    None => nothing(),
                }
            },
            TokenRefreshMsg::Failed(_) => match &self.current_session {
                Some(s) => just(Effect::Authenticate { session: s.clone(), again: true }),
                None => {
                    self.status = "Device re-auth failed: no session in memory".to_string();
                    nothing()
                },
            },
        }
    }

    /// Takes an event of the messaging core.
    pub fn handle_bridge_event(&mut self, evt: BridgeEvent, fresh: Fresh)
        requires
            old(self).wf(),
            old(self).chat_view.scroll_offset < usize::MAX,
        ensures
            final(self).wf(),
            on_bridge(*old(self), evt, fresh, *final(self)),
    {
        match evt {
            BridgeEvent::NewMessage { text, .. } => {
                let time = current_time_hhmm(fresh.unix_secs);
                self.chat_view.messages.push(
                    ChatMessage { id: fresh.message_id, kind: MessageKind::Received, text, time },
                );
                self.chat_view.on_new_message();
                assert(self.chat_view.messages@.drop_last() == old(self).chat_view.messages@);
            },
            BridgeEvent::MessageDelivered { .. } => {},
            BridgeEvent::Error(e) => {
                self.status = cat2("Bridge error: ", e.as_str());
            },
        }
    }

    // ── Keys ─────────────────────────────────────────────────────────────────

    /// Puts the focus on a part of the main screen.
    fn set_focus(&mut self, f: Focus)
        ensures
            *final(self) == focused_on(*old(self), f),
    {
        self.chat_list.focused = f == Focus::ContactList;
        self.chat_view.focused = f == Focus::ChatView;
        self.chat_view.compose_focused = f == Focus::Compose;
        self.focus = f;
    }

    /// Takes a key on the passphrase screen when a session is unlocked.
    fn handle_unlock(&mut self, key: KeyEvent) -> (r: Vec<Effect>)
        requires
            old(self).wf(),
        ensures
            final(self).wf(),
            unlock_key(*old(self), key, *final(self), r@),
    {
        match key.code {
            KeyCode::Backspace => {
                self.unlock_screen.pop_char();
                self.unlock_screen.clear_error();
                nothing()
            },
            KeyCode::Char(c) => {
                self.unlock_screen.push_char(c);
                self.unlock_screen.clear_error();
                nothing()
            },
            KeyCode::Enter => {
                let passphrase = self.unlock_screen.take_passphrase();
                if passphrase.is_empty() {
                    self.unlock_screen.set_error("Enter your passphrase".to_string());
                    nothing()
                } else {
                    just(Effect::ReadSession { passphrase })
                }
            },
            _ => nothing(),
        }
    }

    /// Takes a key on the passphrase screen when a new session is protected.
    #[verifier::rlimit(40)]
    fn handle_set_passphrase(&mut self, key: KeyEvent) -> (r: Vec<Effect>)
        requires
            old(self).wf(),
        ensures
            final(self).wf(),
            set_passphrase_key(*old(self), key, *final(self), r@),
    {
        match key.code {
            KeyCode::Backspace => {
                self.unlock_screen.pop_char();
                nothing()
            },
            KeyCode::Char(c) => {
                self.unlock_screen.push_char(c);
                nothing()
            },
            KeyCode::Enter => {
                let passphrase = self.unlock_screen.take_passphrase();
                let session = match self.pending_session.take() {
                    Some(s) => s,
                    None => return nothing(),
                };
                if passphrase.is_empty() {
                    return just(
                        Effect::SaveSession {
                            session,
                            purpose: SavePurpose::Setup { encrypted: false },
                        },
                    );
                }
                match create_session_key(passphrase.bytes().as_slice()) {
                    Ok(sk) => {
                        self.pending_key = Some(sk);
                        just(
                            Effect::SaveSession {
                                session,
                                purpose: SavePurpose::Setup { encrypted: true },
                            },
                        )
                    },
                    Err(e) => {
                        self.pending_session = Some(session);
                        self.unlock_screen.set_error(
                            cat2("Key derivation failed: ", e.message().as_str()),
                        );
                        nothing()
                    },
                }
            },
            _ => nothing(),
        }
    }

    /// Starts a registration.
    fn start_auth_register(&mut self, username: String) -> (r: Vec<Effect>)
        ensures
            *final(self) == (App {
                registration: RegistrationScreen { active_step: 0, spinner_tick: 0 },
                ticking: true,
                screen: Screen::Registering,
                ..*old(self)
            }),
            r@.len() == if old(self).ticking {
                3nat
            } else {
                2nat
            },
            r@[0] == (Effect::Register {
                username: if username@.len() == 0 {
                    None
                } else {
                    Some(username)
                },
            }),
            old(self).ticking ==> r@[1] is StopTicker,
            r@.last() is StartTicker,
    {
        let username = if username.as_str().is_empty() {
            None
        } else {
            Some(username)
        };
        let mut effects = just(Effect::Register { username });
        self.registration = RegistrationScreen::new();
        if self.ticking {
            effects.push(Effect::StopTicker);
        }
        effects.push(Effect::StartTicker);
        self.ticking = true;
        self.screen = Screen::Registering;
        effects
    }

    /// Takes a key on the form of the first run.
    #[verifier::rlimit(40)]
    fn handle_onboarding(&mut self, key: KeyEvent) -> (r: Vec<Effect>)
        requires
            old(self).wf(),
        ensures
            final(self).wf(),
            onboarding_key(*old(self), key, *final(self), r@),
    {
        if key.code == KeyCode::Char('q') && key.modifiers == Modifiers::Plain
            && self.onboarding.username.as_str().is_empty() {
            self.running = false;
            return nothing();
        }
        match key.code {
            KeyCode::Tab | KeyCode::BackTab => {
                self.device_link = DeviceLinkScreen::new();
                self.screen = Screen::DeviceLink;
                nothing()
            },
            KeyCode::Enter => {
                let username = trim(self.onboarding.username.as_str());
                self.onboarding.status = None;
                self.start_auth_register(username)
            },
            KeyCode::Backspace => {
                self.onboarding.pop_char();
                self.onboarding.status = None;
                nothing()
            },
            KeyCode::Char(c) => {
                self.onboarding.push_char(c);
                self.onboarding.status = None;
                nothing()
            },
            _ => nothing(),
        }
    }

    /// Takes a key on the form for a link token.
    #[verifier::rlimit(40)]
    fn handle_device_link(&mut self, key: KeyEvent) -> (r: Vec<Effect>)
        requires
            old(self).wf(),
        ensures
            final(self).wf(),
            link_key(*old(self), key, *final(self), r@),
    {
        if (key.code == KeyCode::Esc || key.code == KeyCode::Char('q')) && key.modifiers
            == Modifiers::Plain {
            self.screen = Screen::Onboarding;
            return nothing();
        }
        match key.code {
            KeyCode::Enter => {
                let token = trim(self.device_link.token.as_str());
                if token.as_str().is_empty() {
                    self.device_link.set_status("Paste the link token first", true);
                    nothing()
                } else {
                    self.device_link.clear_status();
                    self.screen = Screen::Connecting("Confirming device link…".to_string());
                    just(Effect::Link { token })
                }
            },
            KeyCode::Backspace => {
                self.device_link.pop_char();
                nothing()
            },
            KeyCode::Char(c) => {
                self.device_link.push_char(c);
                nothing()
            },
            _ => nothing(),
        }
    }

    /// Opens the conversation with the selected contact.
    fn open_conversation(&mut self) -> (r: Vec<Effect>)
        requires
            old(self).wf(),
        ensures
            match old(self).chat_list.chosen() {
                Some(c) => {
                    &&& *final(self) == focused_on(
                        App {
                            chat_view: ChatViewPane {
                                contact_name: c.display_name,
                                messages: final(self).chat_view.messages,
                                ..old(self).chat_view
                            },
                            ..*old(self)
                        },
                        Focus::ChatView,
                    )
                    &&& final(self).chat_view.messages@.len() == 0
                    &&& r@ == if old(self).has_storage {
                        seq![Effect::LoadHistory { peer_id: c.id, limit: HISTORY_LIMIT }]
                    } else {
                        Seq::empty()
                    }
                },
                None => *final(self) == focused_on(*old(self), Focus::ChatView) && r@.len() == 0,
            },
    {
        let effects = match self.chat_list.selected_contact() {
            Some(c) => {
                let name = c.display_name.clone();
                let peer_id = c.id.clone();
                self.chat_view.contact_name = name;
                self.chat_view.messages = Vec::new();
                if self.has_storage {
                    just(Effect::LoadHistory { peer_id, limit: HISTORY_LIMIT })
                } else {
                    nothing()
                }
            },
            None => nothing(),
        };
        self.set_focus(Focus::ChatView);
        effects
    }

    /// Takes a key on the main screen with the focus on the contacts.
    fn handle_contacts(&mut self, key: KeyEvent) -> (r: Vec<Effect>)
        requires
            old(self).wf(),
        ensures
            final(self).wf(),
            contacts_key(*old(self), key, *final(self), r@),
    {
        let plain = key.modifiers == Modifiers::Plain;
        match key.code {
            KeyCode::Down => self.chat_list.next(),
            KeyCode::Up => self.chat_list.prev(),
            KeyCode::Tab => self.set_focus(Focus::Compose),
            KeyCode::Enter => return self.open_conversation(),
            KeyCode::Char(c) => {
                if c == 'j' {
                    self.chat_list.next();
                } else if c == 'k' {
                    self.chat_list.prev();
                } else if plain && c == 'x' {
                    if let Some(contact) = self.chat_list.selected_contact() {
                        self.delete_confirm = Some(contact.id.clone());
                    }
                } else if plain && c == 's' {
                    self.screen = Screen::Settings;
                } else if plain && (c == 'n' || c == 'a') {
                    self.contact_search.reset();
                    self.screen = Screen::ContactSearch;
                } else if plain && c == 'i' {
                    self.set_focus(Focus::Compose);
                }
            },
            _ => {},
        }
        nothing()
    }

    /// Takes a key on the main screen with the focus on the conversation.
    fn handle_chat_view(&mut self, key: KeyEvent)
        requires
            old(self).wf(),
        ensures
            final(self).wf(),
            *final(self) == chat_view_key(*old(self), key),
    {
        match move_for(key.code) {
            ChatMove::Focus(f) => self.set_focus(f),
            ChatMove::Scroll(s) => self.chat_view.scroll(s),
            ChatMove::Stay => {},
        }
    }

    /// Sends what was written.
    fn send_message(&mut self, fresh: Fresh) -> (r: Vec<Effect>)
        requires
            old(self).wf(),
        ensures
            final(self).wf(),
            sends(*old(self), fresh, *final(self), r@),
    {
        let text = self.chat_view.take_compose();
        if trim(text.as_str()).as_str().is_empty() {
            return nothing();
        }
        let mut effects = nothing();
        if self.has_orchestrator {
            if let Some(contact) = self.chat_list.selected_contact() {
                let mut plaintext: Vec<u8> = Vec::new();
                plaintext.extend_from_slice(text.as_str().as_bytes());
                assert(plaintext@ == encode_utf8(text@));
                effects.push(
                    Effect::ToCore(
                        IncomingEvent::OutgoingMessage {
                            contact_id: contact.id.clone(),
                            message_id: fresh.message_id.clone(),
                            plaintext,
                            content_type: 0,
                        },
                    ),
                );
            }
        }
        let time = current_time_hhmm(fresh.unix_secs);
        self.chat_view.messages.push(
            ChatMessage { id: fresh.message_id, kind: MessageKind::Sent, text, time },
        );
        assert(self.chat_view.messages@.drop_last() == old(self).chat_view.messages@);
        self.status = "Message sent".to_string();
        effects
    }

    /// Takes a key on the main screen with the focus on the box to write in.
    fn handle_compose(&mut self, key: KeyEvent, fresh: Fresh) -> (r: Vec<Effect>)
        requires
            old(self).wf(),
        ensures
            final(self).wf(),
            compose_key(*old(self), key, fresh, *final(self), r@),
    {
        match key.code {
            KeyCode::Esc | KeyCode::BackTab => self.set_focus(Focus::ContactList),
            KeyCode::Enter => return self.send_message(fresh),
            KeyCode::Backspace => self.chat_view.pop_char(),
            KeyCode::Char(c) => self.chat_view.push_char(c),
            _ => {},
        }
        nothing()
    }

    /// Where the first contact with an ID stands in the list.
    pub fn place_of(&self, id: &str) -> (r: Option<usize>)
        ensures
            is_place_of(self.chat_list.contacts@, id@, r),
    {
        let mut i: usize = 0;
        while i < self.chat_list.contacts.len()
            invariant
                i <= self.chat_list.contacts@.len(),
                forall|j: int|
                    0 <= j < i ==> (#[trigger] self.chat_list.contacts@[j]).id@ != id@,
            decreases self.chat_list.contacts@.len() - i,
        {
            if same_text(self.chat_list.contacts[i].id.as_str(), id) {
                return Some(i);
            }
            i = i + 1;
        }
        None
    }

    /// Takes a deleted contact out of the list and closes its conversation.
    #[verifier::rlimit(40)]
    fn forget(&mut self, peer_id: &str)
        requires
            old(self).wf(),
        ensures
            final(self).wf(),
            exists|place: Option<usize>|
                #[trigger] forgets(*old(self), peer_id@, place, *final(self)),
    {
        let place = self.place_of(peer_id);
        if let Some(i) = place {
            self.chat_list.remove_at(i);
        }
        let gone = self.place_of(peer_id).is_none();
        if same_text(self.chat_view.contact_name.as_str(), peer_id) || gone {
            self.chat_view.messages = Vec::new();
            self.chat_view.contact_name = match self.chat_list.selected_contact() {
                Some(c) => c.display_name.clone(),
                None => "".to_string(),
            };
        }
        self.status = "Node removed.".to_string();
        assert(forgets(*old(self), peer_id@, place, *self));
    }

    /// Takes a key while the user is asked whether a contact is to be deleted.
    fn handle_confirm(&mut self, key: KeyEvent) -> (r: Vec<Effect>)
        requires
            old(self).wf(),
            old(self).delete_confirm is Some,
        ensures
            final(self).wf(),
            confirm_key(*old(self), key, *final(self), r@),
    {
        let asked = self.delete_confirm.take();
        if key.code == KeyCode::Char('y') || key.code == KeyCode::Char('Y') {
            if let Some(peer_id) = asked {
                if self.has_storage {
                    return just(Effect::DeleteContact { peer_id });
                }
                self.forget(peer_id.as_str());
            }
        }
        nothing()
    }

    /// Takes a key on the main screen.
    fn handle_main(&mut self, key: KeyEvent, fresh: Fresh) -> (r: Vec<Effect>)
        requires
            old(self).wf(),
        ensures
            final(self).wf(),
            main_key(*old(self), key, fresh, *final(self), r@),
    {
        if self.delete_confirm.is_some() {
            return self.handle_confirm(key);
        }
        if is_quit(key) && self.focus != Focus::Compose {
            self.running = false;
            return nothing();
        }
        match self.focus {
            Focus::ContactList => self.handle_contacts(key),
            Focus::ChatView => {
                self.handle_chat_view(key);
                nothing()
            },
            Focus::Compose => self.handle_compose(key, fresh),
        }
    }

    /// Shows the safety number of a contact.
    fn show_safety_number(
        &mut self,
        contact_name: String,
        our_key: &Vec<u8>,
        their_key_b64: Option<String>,
    )
        requires
            old(self).wf(),
        ensures
            final(self).wf(),
            shows_safety(
                *old(self),
                contact_name@,
                our_key@,
                match their_key_b64 {
                    Some(t) => Some(t@),
                    None => None,
                },
                *final(self),
            ),
    {
        let mut theirs: Vec<u8> = Vec::new();
        if let Some(t) = &their_key_b64 {
            if !t.as_str().is_empty() {
                if let Some(v) = from_base64(t.as_str()) {
                    theirs = v;
                }
            }
        }
        let ours = vec_to_key32(our_key);
        let their_key = vec_to_key32(&theirs);
        self.safety_number = Some(SafetyNumberScreen::new(contact_name, &ours, &their_key));
        self.screen = Screen::SafetyNumber;
    }

    /// Asks for the safety number of the selected contact.
    fn open_safety_number_screen(&mut self) -> (r: Vec<Effect>)
        requires
            old(self).wf(),
        ensures
            final(self).wf(),
            opens_safety(*old(self), *final(self), r@),
    {
        let (contact_name, contact_id) = match self.chat_list.selected_contact() {
            Some(c) => (c.display_name.clone(), c.id.clone()),
            None => {
                self.status = "Select a contact first".to_string();
                return nothing();
            },
        };
        let our_key = match &self.our_identity_key {
            Some(k) => {
                let mut copy: Vec<u8> = Vec::new();
                copy.extend_from_slice(k.as_slice());
                assert(copy@ == k@);
                copy
            },
            None => {
                self.status = "Identity key not available".to_string();
                return nothing();
            },
        };
        if self.has_storage {
            just(Effect::LookUpContact { contact_id, contact_name })
        } else {
            self.show_safety_number(contact_name, &our_key, None);
            nothing()
        }
    }

    /// Asks for the own public identity key to be exported.
    fn export_identity_key(&mut self) -> (r: Vec<Effect>)
        requires
            old(self).wf(),
        ensures
            final(self).wf(),
            exports(*old(self), *final(self), r@),
    {
        match &self.our_identity_key {
            Some(key) => {
                let mut hex = String::new();
                push_hex_range(&mut hex, key.as_slice(), 0, key.len());
                assert(key@.subrange(0, key@.len() as int) == key@);
                assert(hex@ == bytes_hex(key@));
                let contents = cat5(
                    "identity_public_key_hex=",
                    hex.as_str(),
                    "\nuser_id=",
                    self.user_id.as_str(),
                    "\n",
                );
                just(Effect::ExportIdentity { contents })
            },
            None => {
                self.status = "Identity key not available".to_string();
                nothing()
            },
        }
    }

    /// Does what the user asked for on the settings screen.
    fn do_settings_action(&mut self, action: SettingsAction) -> (r: Vec<Effect>)
        requires
            old(self).wf(),
        ensures
            final(self).wf(),
            settings_action(*old(self), action, *final(self), r@),
    {
        match action {
            SettingsAction::Back => {
                self.screen = Screen::Main;
                nothing()
            },
            SettingsAction::Logout => just(Effect::ClearSession),
            SettingsAction::ShowSafetyNumber => self.open_safety_number_screen(),
            SettingsAction::ExportKeys => self.export_identity_key(),
            SettingsAction::ShowMyQr => {
                self.screen = Screen::IdentityQr;
                nothing()
            },
        }
    }

    /// The action that a key stands for on the settings screen.
    fn settings_shortcut(&self, code: KeyCode) -> (r: Option<SettingsAction>)
        ensures
            r == shortcut(self.settings_screen, code),
    {
        match code {
            KeyCode::Esc | KeyCode::Char('q') | KeyCode::Char('b') | KeyCode::Char('B') => Some(
                SettingsAction::Back,
            ),
            KeyCode::Enter => self.settings_screen.confirm(),
            KeyCode::Char('l') | KeyCode::Char('L') => Some(SettingsAction::Logout),
            KeyCode::Char('Q') => Some(SettingsAction::ShowMyQr),
            KeyCode::Char('s') | KeyCode::Char('S') => Some(SettingsAction::ShowSafetyNumber),
            KeyCode::Char('e') | KeyCode::Char('E') => Some(SettingsAction::ExportKeys),
            _ => None,
        }
    }

    /// Takes a key on the settings screen.
    fn handle_settings(&mut self, key: KeyEvent) -> (r: Vec<Effect>)
        requires
            old(self).wf(),
        ensures
            final(self).wf(),
            settings_key(*old(self), key, *final(self), r@),
    {
        match key.code {
            KeyCode::Up | KeyCode::Char('k') => {
                self.settings_screen.prev();
                nothing()
            },
            KeyCode::Down | KeyCode::Char('j') => {
                self.settings_screen.next();
                nothing()
            },
            code => match self.settings_shortcut(code) {
                Some(action) => self.do_settings_action(action),
                None => nothing(),
            },
        }
    }

    /// Adds the selected user as a contact.
    fn add_found_contact(&mut self) -> (r: Vec<Effect>)
        requires
            old(self).wf(),
        ensures
            final(self).wf(),
            adds_contact(*old(self), *final(self), r@),
    {
        let (user_id, username, display_name) = match self.contact_search.selected() {
            Some(found) => (
                found.user_id.clone(),
                found.username.clone(),
                found.display_name.clone(),
            ),
            None => return nothing(),
        };
        let mut effects = nothing();
        if self.has_storage {
            effects.push(
                Effect::UpsertContact(
                    StoredContact {
                        user_id: user_id.clone(),
                        display_name: display_name.clone(),
                        identity_key_b64: "".to_string(),
                    },
                ),
            );
        }
        if self.has_stream {
            let mut ids: Vec<String> = Vec::new();
            ids.push(user_id.clone());
            assert(ids@ == seq![user_id]);
            effects.push(Effect::ToStream(StreamCmd::Subscribe(ids, None)));
        }
        self.chat_list.add_contact(
            Contact { id: user_id, display_name, unread: 0, last_message: None },
        );
        self.status = cat2("Added @", username.as_str());
        self.contact_search.reset();
        self.screen = Screen::Main;
        effects
    }

    /// Takes a key in the search for contacts.
    #[verifier::rlimit(40)]
    fn handle_contact_search(&mut self, key: KeyEvent) -> (r: Vec<Effect>)
        requires
            old(self).wf(),
        ensures
            final(self).wf(),
            search_key(*old(self), key, *final(self), r@),
    {
        if key.code == KeyCode::Char('a') && key.modifiers == Modifiers::Control {
            return self.add_found_contact();
        }
        match key.code {
            KeyCode::Esc => {
                self.contact_search.reset();
                self.screen = Screen::Main;
            },
            KeyCode::Down | KeyCode::Tab => self.contact_search.next(),
            KeyCode::Up | KeyCode::BackTab => self.contact_search.prev(),
            KeyCode::Enter => {
                let query = trim(self.contact_search.query.as_str());
                if !query.as_str().is_empty() {
                    self.contact_search.searching = true;
                    return just(Effect::Search { query });
                }
            },
            KeyCode::Backspace => self.contact_search.pop_char(),
            KeyCode::Char(c) => self.contact_search.push_char(c),
            _ => {},
        }
        nothing()
    }

    /// Takes a key.
    #[verifier::rlimit(40)]
    pub fn handle_event(&mut self, key: KeyEvent, fresh: Fresh) -> (r: Vec<Effect>)
        requires
            old(self).wf(),
        ensures
            final(self).wf(),
            on_key(*old(self), key, fresh, *final(self), r@),
    {
        if !key.pressed {
            return nothing();
        }
        if is_interrupt(key) {
            self.running = false;
            return nothing();
        }
        match &self.screen {
            Screen::Startup | Screen::Registering => nothing(),
            Screen::Connecting(_) => nothing(),
            Screen::AuthError(_) => {
                if self.session_key.is_some() {
                    self.unlock_screen.reset_for_mode(UnlockMode::Unlock);
                    self.screen = Screen::Unlock;
                } else {
                    self.screen = Screen::Onboarding;
                }
                nothing()
            },
            Screen::Unlock => self.handle_unlock(key),
            Screen::SetPassphrase => self.handle_set_passphrase(key),
            Screen::Onboarding => self.handle_onboarding(key),
            Screen::DeviceLink => self.handle_device_link(key),
            Screen::Main => self.handle_main(key, fresh),
            Screen::Settings => self.handle_settings(key),
            Screen::ContactSearch => self.handle_contact_search(key),
            Screen::SafetyNumber | Screen::IdentityQr => {
                self.screen = Screen::Settings;
                nothing()
            },
        }
    }

    // ── Background events ────────────────────────────────────────────────────

    /// Takes a report of a background task.
    pub fn handle_internal(&mut self, event: InternalEvent, fresh: Fresh) -> (r: Vec<Effect>)
        requires
            old(self).wf(),
            old(self).chat_view.scroll_offset < usize::MAX,
        ensures
            final(self).wf(),
            on_internal(*old(self), event, fresh, *final(self), r@),
    {
        match event {
            InternalEvent::Auth(msg) => {
                let registering = match &self.screen {
                    Screen::Registering => true,
                    _ => false,
                };
                if registering {
                    let mut effects = self.stop_ticker();
                    let ghost before = effects@;
                    self.registration.active_step = STEP_COUNT;
                    let mut rest = self.handle_auth_msg(msg);
                    let ghost more = rest@;
                    effects.append(&mut rest);
                    proof {
                        assert(effects@ == before + more);
                        if before.len() == 1 {
                            assert(effects@.skip(1) == more);
                        } else {
                            assert(effects@ == more);
                        }
                    }
                    effects
                } else {
                    self.handle_auth_msg(msg)
                }
            },
            InternalEvent::TokenRefresh(msg) => self.handle_token_refresh_msg(msg),
            InternalEvent::Bridge(evt) => {
                self.handle_bridge_event(evt, fresh);
                nothing()
            },
            InternalEvent::ContactSearchResult(results) => {
                self.contact_search.set_results(results);
                nothing()
            },
            InternalEvent::ContactSearchError(msg) => {
                self.contact_search.set_error(msg);
                nothing()
            },
            InternalEvent::RegistrationStep(step) => {
                self.registration.advance(step.index());
                nothing()
            },
            InternalEvent::Tick => {
                if let Screen::Registering = &self.screen {
                    self.registration.tick();
                }
                nothing()
            },
        }
    }

    // ── Replies ──────────────────────────────────────────────────────────────

    /// Starts the messaging core for the session in use.
    fn start_current(&mut self) -> (r: Vec<Effect>)
        ensures
            *final(self) == (App { status: final(self).status, ..*old(self) }),
            starts_current(*old(self), *final(self), r@),
    {
        match &self.current_session {
            Some(s) => {
                let session = s.clone();
                self.start_orchestrator(&session)
            },
            None => nothing(),
        }
    }

    /// Goes on when a session was saved or could not be.
    #[verifier::rlimit(40)]
    fn session_saved(
        &mut self,
        session: Session,
        purpose: SavePurpose,
        result: Result<(), String>,
    ) -> (r: Vec<Effect>)
        requires
            old(self).wf(),
        ensures
            final(self).wf(),
            on_saved(*old(self), session, purpose, result, *final(self), r@),
    {
        match purpose {
            SavePurpose::Login { .. } => match result {
                Ok(_) => {
                    let effects = self.start_current();
                    self.screen = Screen::Main;
                    effects
                },
                Err(e) => {
                    self.screen = Screen::AuthError(cat2("Save failed: ", e.as_str()));
                    nothing()
                },
            },
            SavePurpose::Setup { encrypted } => match result {
                Ok(_) => {
                    if encrypted {
                        self.session_key = self.pending_key.take();
                    } else {
                        self.no_encrypt = true;
                    }
                    let effects = self.start_current();
                    self.screen = Screen::Main;
                    effects
                },
                Err(e) => {
                    self.pending_session = Some(session);
                    self.pending_key = None;
                    self.unlock_screen.set_error(cat2("Save failed: ", e.as_str()));
                    nothing()
                },
            },
        }
    }

    /// Goes on with the session file and a passphrase.
    fn session_read(&mut self, passphrase: SecretBytes, file: SessionFile) -> (r: Vec<Effect>)
        requires
            old(self).wf(),
        ensures
            final(self).wf(),
            on_session_read(*old(self), passphrase@, file, *final(self), r@),
    {
        match open_session_key(passphrase.bytes().as_slice(), &file) {
            Ok(Some(sk)) => match &file {
                SessionFile::Encrypted(enc) => match decrypt_session(enc, &sk) {
                    Ok(text) => {
                        self.pending_key = Some(sk);
                        just(Effect::ParseSession { text })
                    },
                    Err(e) => {
                        self.unlock_screen.set_error(
                            cat2("Session corrupted: ", e.message().as_str()),
                        );
                        nothing()
                    },
                },
                _ => nothing(),
            },
            Ok(None) => {
                self.unlock_screen.set_error("No session found".to_string());
                nothing()
            },
            Err(_) => {
                self.unlock_screen.set_error("Wrong passphrase or corrupted session".to_string());
                nothing()
            },
        }
    }

    /// Goes on with a session that was decrypted.
    fn session_parsed(&mut self, result: Result<Session, String>) -> (r: Vec<Effect>)
        requires
            old(self).wf(),
        ensures
            final(self).wf(),
            on_session_parsed(*old(self), result, *final(self), r@),
    {
        match result {
            Ok(session) => {
                self.session_key = self.pending_key.take();
                self.screen = Screen::Connecting("Authenticating…".to_string());
                just(Effect::Authenticate { session, again: false })
            },
            Err(e) => {
                self.pending_key = None;
                self.unlock_screen.set_error(cat2("Session corrupted: ", e.as_str()));
                nothing()
            },
        }
    }

    /// Shows the contacts that were loaded.
    fn contacts_loaded(&mut self, loaded: Option<Vec<StoredContact>>) -> (r: Vec<Effect>)
        requires
            old(self).wf(),
        ensures
            final(self).wf(),
            on_reply(*old(self), Reply::ContactsLoaded(loaded), *final(self), r@),
    {
        self.has_storage = true;
        let mut contact_ids: Vec<String> = Vec::new();
        if let Some(stored) = &loaded {
            let mut contacts: Vec<Contact> = Vec::new();
            let mut i: usize = 0;
            while i < stored.len()
                invariant
                    i <= stored@.len(),
                    are_loaded(contacts@, stored@.take(i as int)),
                    contact_ids@ == stored@.take(i as int).map_values(
                        |c: StoredContact| c.user_id,
                    ),
                decreases stored@.len() - i,
            {
                contacts.push(
                    Contact {
                        id: stored[i].user_id.clone(),
                        display_name: stored[i].display_name.clone(),
                        unread: 0,
                        last_message: None,
                    },
                );
                contact_ids.push(stored[i].user_id.clone());
                i = i + 1;
                assert(contact_ids@ == stored@.take(i as int).map_values(
                    |c: StoredContact| c.user_id,
                ));
            }
            assert(stored@.take(i as int) == stored@);
            self.chat_list.set_contacts(contacts);
        }
        just(Effect::PrepareCore { contact_ids })
    }

    /// Goes on when the messaging core is ready.
    fn core_prepared(
        &mut self,
        contact_ids: Vec<String>,
        identity_key: Option<Vec<u8>>,
        otpk_count: usize,
    ) -> (r: Vec<Effect>)
        requires
            old(self).wf(),
        ensures
            final(self).wf(),
            on_core_prepared(
                *old(self),
                contact_ids,
                identity_key,
                otpk_count,
                *final(self),
                r@,
            ),
    {
        self.our_identity_key = identity_key;
        self.has_stream = true;
        self.has_orchestrator = true;
        let mut effects = just(
            Effect::SpawnStream { access_token: self.access_token.clone(), contact_ids },
        );
        effects.push(
            Effect::SpawnOrchestrator {
                access_token: self.access_token.clone(),
                user_id: self.user_id.clone(),
                device_id: self.device_id.clone(),
            },
        );
        effects.push(Effect::ToCore(IncomingEvent::AppLaunched));
        let ghost head = seq![
            Effect::SpawnStream { access_token: self.access_token, contact_ids },
            Effect::SpawnOrchestrator {
                access_token: self.access_token,
                user_id: self.user_id,
                device_id: self.device_id,
            },
            Effect::ToCore(IncomingEvent::AppLaunched),
        ];
        assert(effects@ == head);
        if otpk_count > 0 {
            effects.push(
                Effect::UploadOtpks {
                    access_token: self.access_token.clone(),
                    user_id: self.user_id.clone(),
                    device_id: self.device_id.clone(),
                },
            );
            assert(effects@ == head + seq![
                Effect::UploadOtpks {
                    access_token: self.access_token,
                    user_id: self.user_id,
                    device_id: self.device_id,
                },
            ]);
        } else {
            assert(effects@ == head + Seq::<Effect>::empty());
        }
        effects
    }

    /// Shows the history of a conversation.
    fn history_loaded(&mut self, history: Option<Vec<StoredMessage>>)
        requires
            old(self).wf(),
        ensures
            final(self).wf(),
            on_reply(*old(self), Reply::HistoryLoaded(history), *final(self), Seq::empty()),
    {
        let history = match history {
            Some(h) => h,
            None => return,
        };
        let ghost before = self.chat_view.messages@;
        let ghost n = before.len() as int;
        let mut i: usize = 0;
        assert(self.chat_view.messages@.take(n) == before);
        while i < history.len()
            invariant
                i <= history@.len(),
                n == before.len(),
                before == old(self).chat_view.messages@,
                *self == (App { chat_view: self.chat_view, ..*old(self) }),
                self.chat_view == (ChatViewPane {
                    messages: self.chat_view.messages,
                    ..old(self).chat_view
                }),
                self.chat_view.messages@.len() == n + i,
                self.chat_view.messages@.take(n) == before,
                are_shown(self.chat_view.messages@.skip(n), history@.take(i as int)),
            decreases history@.len() - i,
        {
            let m = &history[i];
            let kind = if same_text(m.direction.as_str(), "sent") {
                MessageKind::Sent
            } else {
                MessageKind::Received
            };
            let shown = ChatMessage {
                id: m.id.clone(),
                kind,
                text: m.text.clone(),
                time: message_time(m.timestamp_ms),
            };
            let ghost sofar = self.chat_view.messages@;
            self.chat_view.messages.push(shown);
            i = i + 1;
            proof {
                let all = self.chat_view.messages@;
                assert(all.take(n) == before) by {
                    assert(all.take(n) == sofar.take(n));
                }
                assert forall|j: int| 0 <= j < i implies #[trigger] all.skip(n)[j] == if j < i - 1 {
                    sofar.skip(n)[j]
                } else {
                    shown
                } by {}
            }
        }
        assert(history@.take(i as int) == history@);
    }

    /// Forgets everything that belongs to the user, or says why the session file is still there.
    #[verifier::rlimit(40)]
    fn session_cleared(&mut self, result: Result<(), String>) -> (r: Vec<Effect>)
        requires
            old(self).wf(),
        ensures
            final(self).wf(),
            on_cleared(*old(self), result, *final(self), r@),
    {
        if let Err(e) = result {
            self.status = cat2("Logout error: ", e.as_str());
            return nothing();
        }
        let mut effects = just(Effect::StopCore);
        if self.has_stream {
            effects.push(Effect::ToStream(StreamCmd::Shutdown));
        }
        effects.push(Effect::CloseStorage);
        self.has_orchestrator = false;
        self.has_stream = false;
        self.has_storage = false;
        self.session_key = None;
        self.pending_key = None;
        self.current_session = None;
        self.pending_session = None;
        self.our_identity_key = None;
        self.user_id = "".to_string();
        self.device_id = "".to_string();
        self.access_token = "".to_string();
        self.connection = ConnectionState::Disconnected;
        self.contact_search.reset();
        self.chat_list = ChatListPane::new();
        self.chat_view = ChatViewPane::new("".to_string());
        self.focus = Focus::ContactList;
        self.settings_screen = SettingsScreen::new(
            self.server_url.as_str(),
            transport_label(&self.transport),
            "—",
            "—",
            self.pq_active,
        );
        self.onboarding = OnboardingScreen::new();
        self.screen = Screen::Onboarding;
        effects
    }

    /// Takes the answer to an effect.
    #[verifier::rlimit(40)]
    pub fn handle_reply(&mut self, reply: Reply) -> (r: Vec<Effect>)
        requires
            old(self).wf(),
        ensures
            final(self).wf(),
            on_reply(*old(self), reply, *final(self), r@),
    {
        match reply {
            Reply::Saved { session, purpose, result } => self.session_saved(
                session,
                purpose,
                result,
            ),
            Reply::SessionRead { passphrase, file } => self.session_read(passphrase, file),
            Reply::SessionParsed(result) => self.session_parsed(result),
            Reply::ClientBuilt(result) => match result {
                Ok(_) => just(Effect::OpenStorage { encrypted: self.session_key.is_some() }),
                Err(e) => {
                    self.status = cat2("Orchestrator init error: ", e.as_str());
                    nothing()
                },
            },
            Reply::StorageOpened(result) => match result {
                Ok(_) => just(Effect::LoadContacts),
                Err(e) => {
                    self.status = cat2("Storage open error: ", e.as_str());
                    nothing()
                },
            },
            Reply::ContactsLoaded(loaded) => self.contacts_loaded(loaded),
            Reply::CorePrepared { contact_ids, identity_key, otpk_count } => self.core_prepared(
                contact_ids,
                identity_key,
                otpk_count,
            ),
            Reply::HistoryLoaded(history) => {
                self.history_loaded(history);
                nothing()
            },
            Reply::ContactFound { contact_name, identity_key_b64 } => {
                let our_key = match &self.our_identity_key {
                    Some(k) => {
                        let mut copy: Vec<u8> = Vec::new();
                        copy.extend_from_slice(k.as_slice());
                        assert(copy@ == k@);
                        copy
                    },
                    None => return nothing(),
                };
                self.show_safety_number(contact_name, &our_key, identity_key_b64);
                nothing()
            },
            Reply::Exported { path, result } => {
                self.status = match result {
                    Ok(_) => cat2("Key exported → ", path.as_str()),
                    Err(e) => cat2("Export failed: ", e.as_str()),
                };
                nothing()
            },
            Reply::Deleted { peer_id, result } => match result {
                Ok(_) => {
                    self.forget(peer_id.as_str());
                    nothing()
                },
                Err(e) => {
                    self.status = cat2("Delete failed: ", e.as_str());
                    nothing()
                },
            },
            Reply::SessionCleared(result) => self.session_cleared(result),
        }
    }
}

// ── Effects on the database ──────────────────────────────────────────────────

/// What became of an effect that was given to the database.
pub enum Served {
    /// It was performed, or why not, with the answer to it where there is one. What could not be read
    /// is missing in the answer.
    Done { result: Result<(), StorageError>, reply: Option<Reply> },
    /// It is not for the database.
    Elsewhere(Effect),
}

/// What an effect does to the database, and what it is answered.
pub open spec fn served(before: Storage, effect: Effect, after: Storage, outcome: Served) -> bool {
    let c = before.contents();
    &&& before.is_own() ==> after.is_own()
    &&& match effect {
        Effect::LoadContacts => {
            &&& after == before
            &&& outcome matches Served::Done {
                result,
                reply: Some(Reply::ContactsLoaded(loaded)),
            }
            &&& match result {
                Ok(_) => loaded is Some && (before.is_own() ==> are_contacts(
                    c.contacts,
                    stored_contacts(loaded->0@),
                )),
                Err(e) => loaded is None && (before.is_own() ==> e is Sqlite),
            }
        },
        Effect::LoadHistory { peer_id, limit } => {
            &&& after == before
            &&& outcome matches Served::Done {
                result,
                reply: Some(Reply::HistoryLoaded(history)),
            }
            &&& match result {
                Ok(_) => history is Some && (limit <= i64::MAX ==> history->0@.len() <= limit) && (
                before.is_own() && is_clean(peer_id@) ==> are_latest(
                    c.messages,
                    peer_id@,
                    limit as i64,
                    stored_messages(history->0@).reverse(),
                )),
                Err(e) => history is None && (before.is_own() && is_clean(peer_id@) ==> e
                    is Sqlite),
            }
        },
        Effect::LookUpContact { contact_id, contact_name } => {
            &&& after == before
            &&& outcome matches Served::Done {
                result,
                reply: Some(Reply::ContactFound { contact_name: name, identity_key_b64: key }),
            }
            &&& name == contact_name
            &&& match result {
                Ok(_) => before.is_own() && is_clean(contact_id@) ==> match key {
                    Some(k) => c.contacts.contains_key(contact_id@) && c.contacts[contact_id@].1
                        == k@,
                    None => !c.contacts.contains_key(contact_id@),
                },
                Err(e) => key is None && (before.is_own() && is_clean(contact_id@) ==> e
                    is Sqlite),
            }
        },
        Effect::DeleteContact { peer_id } => {
            &&& outcome matches Served::Done {
                result,
                reply: Some(Reply::Deleted { peer_id: id, result: told }),
            }
            &&& id == peer_id
            &&& told is Ok <==> result is Ok
            &&& match result {
                Ok(_) => {
                    &&& before.is_own() && is_clean(peer_id@) ==> after.contents() == (Contents {
                        keys: after.contents().keys,
                        ..forgotten(c, peer_id@)
                    })
                    &&& before.is_own() && is_literal(peer_id@) && are_searchable(c.keys)
                        ==> after.contents() == forgotten(c, peer_id@)
                },
                Err(e) => {
                    &&& e is Sqlite
                    &&& before.is_own() && is_clean(peer_id@) ==> partly_forgotten(
                        c,
                        peer_id@,
                        after.contents(),
                    )
                },
            }
        },
        Effect::UpsertContact(contact) => {
            &&& outcome matches Served::Done { result, reply: None }
            &&& match result {
                Ok(_) => before.is_own() && is_clean(contact.user_id@) ==> after.contents()
                    == (Contents {
                    contacts: c.contacts.insert(contact.user_id@, contact.row()),
                    ..c
                }),
                Err(e) => e is Sqlite && (before.is_own() ==> after.contents() == c),
            }
        },
        _ => after == before && outcome == Served::Elsewhere(effect),
    }
}

/// Performs an effect that is for the database.
pub fn serve(storage: &mut Storage, effect: Effect) -> (r: Served)
    ensures
        served(*old(storage), effect, *final(storage), r),
{
    match effect {
        Effect::LoadContacts => match storage.get_contacts() {
            Ok(contacts) => Served::Done {
                result: Ok(()),
                reply: Some(Reply::ContactsLoaded(Some(contacts))),
            },
            Err(e) => Served::Done {
                result: Err(e),
                reply: Some(Reply::ContactsLoaded(None)),
            },
        },
        Effect::LoadHistory { peer_id, limit } => match storage.get_messages(
            peer_id.as_str(),
            limit,
        ) {
            Ok(messages) => Served::Done {
                result: Ok(()),
                reply: Some(Reply::HistoryLoaded(Some(messages))),
            },
            Err(e) => Served::Done { result: Err(e), reply: Some(Reply::HistoryLoaded(None)) },
        },
        Effect::LookUpContact { contact_id, contact_name } => {
            let (result, identity_key_b64) = match storage.get_contact_by_id(contact_id.as_str()) {
                Ok(Some(contact)) => (Ok(()), Some(contact.identity_key_b64)),
                Ok(None) => (Ok(()), None),
                Err(e) => (Err(e), None),
            };
            Served::Done {
                result,
                reply: Some(Reply::ContactFound { contact_name, identity_key_b64 }),
            }
        },
        Effect::DeleteContact { peer_id } => match storage.delete_contact(peer_id.as_str()) {
            Ok(_) => Served::Done {
                result: Ok(()),
                reply: Some(Reply::Deleted { peer_id, result: Ok(()) }),
            },
            Err(e) => {
                let told = e.message();
                Served::Done {
                    result: Err(e),
                    reply: Some(Reply::Deleted { peer_id, result: Err(told) }),
                }
            },
        },
        Effect::UpsertContact(contact) => {
            let result = storage.upsert_contact(&contact);
            Served::Done { result, reply: None }
        },
        other => Served::Elsewhere(other),
    }
}

/// Where the public identity key of a user is exported to: a file in the home directory, or in the
/// current one where there is none.
pub fn export_path(home: Option<&str>, user_id: &str) -> (r: String)
    ensures
        r@ == match home {
            Some(h) => h@,
            None => "."@,
        } + "/construct_identity_"@ + user_id@ + ".txt"@,
{
    let home: &str = match home {
        Some(h) => h,
        None => ".",
    };
    cat4(home, "/construct_identity_", user_id, ".txt")
}

// ── Laws ─────────────────────────────────────────────────────────────────────

/// Ctrl+C ends the client on every screen, and does nothing else.
pub proof fn interrupt_quits(
    before: App,
    key: KeyEvent,
    fresh: Fresh,
    after: App,
    effects: Seq<Effect>,
)
    requires
        on_key(before, key, fresh, after, effects),
        key.pressed,
        is_interrupt(key),
    ensures
        after == (App { running: false, ..before }),
        effects.len() == 0,
{
}

/// On the main screen, unless a deletion waits for an answer, `q` ends the client where nothing is
/// being written, and is a letter where something is.
pub proof fn quit_key_is_a_letter_in_compose(
    before: App,
    key: KeyEvent,
    fresh: Fresh,
    after: App,
    effects: Seq<Effect>,
)
    requires
        on_key(before, key, fresh, after, effects),
        key.pressed,
        !is_interrupt(key),
        is_quit(key),
        before.screen is Main,
        before.delete_confirm is None,
    ensures
        before.focus != Focus::Compose ==> !after.running,
        before.focus == Focus::Compose ==> after.running == before.running
            && after.chat_view.compose@ == before.chat_view.compose@.push('q'),
{
}

/// A contact is deleted only after the user was asked about that very contact and said yes.
pub proof fn deletion_needs_consent(
    before: App,
    key: KeyEvent,
    fresh: Fresh,
    after: App,
    effects: Seq<Effect>,
    i: int,
)
    requires
        on_key(before, key, fresh, after, effects),
        0 <= i < effects.len(),
        effects[i] is DeleteContact,
    ensures
        before.screen is Main,
        before.delete_confirm == Some(effects[i]->DeleteContact_peer_id),
        key.code == KeyCode::Char('y') || key.code == KeyCode::Char('Y'),
{
}

/// Keys hand something to the messaging core only when what was written is sent with Enter.
pub proof fn only_enter_sends(
    before: App,
    key: KeyEvent,
    fresh: Fresh,
    after: App,
    effects: Seq<Effect>,
    i: int,
)
    requires
        on_key(before, key, fresh, after, effects),
        0 <= i < effects.len(),
        effects[i] is ToCore,
    ensures
        before.screen is Main,
        before.focus == Focus::Compose,
        key.code == KeyCode::Enter,
        trimmed(before.chat_view.compose@).len() > 0,
{
}

/// A report of a background task has a session saved in plain text only where encryption is off and
/// no key is in use.
pub proof fn plain_sessions_are_wanted(
    before: App,
    event: InternalEvent,
    fresh: Fresh,
    after: App,
    effects: Seq<Effect>,
    i: int,
)
    requires
        on_internal(before, event, fresh, after, effects),
        0 <= i < effects.len(),
        match effects[i] {
            Effect::SaveSession { purpose: SavePurpose::Login { encrypted }, .. } => !encrypted,
            Effect::SaveSession { purpose: SavePurpose::Setup { encrypted }, .. } => !encrypted,
            Effect::SaveQuietly { encrypted, .. } => !encrypted,
            _ => false,
        },
    ensures
        before.no_encrypt,
        before.session_key is None,
{
    if event is Auth && before.screen is Registering && before.ticking {
        assert(effects.skip(1)[i - 1] == effects[i]);
    }
}

/// The keys in use, and with them the salt that they were derived with, are not changed by keys that
/// are pressed nor by reports of background tasks.
pub proof fn session_key_is_kept(
    before: App,
    key: KeyEvent,
    event: InternalEvent,
    fresh: Fresh,
    after: App,
    effects: Seq<Effect>,
)
    requires
        on_key(before, key, fresh, after, effects) || on_internal(
            before,
            event,
            fresh,
            after,
            effects,
        ),
    ensures
        after.session_key == before.session_key,
{
}

/// The passphrase is gone from the screen once it was entered.
pub proof fn passphrase_is_not_kept(
    before: App,
    key: KeyEvent,
    fresh: Fresh,
    after: App,
    effects: Seq<Effect>,
)
    requires
        on_key(before, key, fresh, after, effects),
        key.pressed,
        before.screen is Unlock || before.screen is SetPassphrase,
        key.code == KeyCode::Enter,
    ensures
        after.unlock_screen.passphrase@ == ""@,
{
}

} // verus!
