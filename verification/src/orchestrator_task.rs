//! Dispatch of the actions that the messaging core asks for.
//!
//! The core turns an incoming event into actions. [`Dispatcher::dispatch`] turns one action into
//! the commands that carry it out, and [`Dispatcher::resume`] takes the replies to those commands
//! that ask for something.

use vstd::prelude::*;
use vstd::utf8::*;

use crate::bridge::{with_delivered, with_message, BridgeEvent};
use crate::storage::{
    is_clean, is_direction, not_before, with_ack, Contents, Storage, StorageError, StoredMessage,
};
use crate::streaming::{
    addressed, build_control_envelope, build_envelope, content_type_from_u8, content_type_of,
    is_control_content, ContentType, Envelope, StreamEvent,
};
use crate::text::{
    add_name, cat2, cat4, contains, lossy_text, names, occurs_in, position_of, remove_name,
    same_text, utf8_lossy,
};

verus! {

// ── Plaintext frames ─────────────────────────────────────────────────────────

/// Length of the header of a KNST frame: magic (4 bytes), version, flags, message UUID (16),
/// chunk index (2), chunk count (2) and plaintext length (4).
pub const KNST_HEADER_SIZE: usize = 30;

/// Whether a decrypted plaintext is a KNST frame: long enough for the header, beginning with
/// `KNST` and version 1.
pub open spec fn is_knst_frame(plaintext: Seq<u8>) -> bool {
    &&& plaintext.len() >= KNST_HEADER_SIZE
    &&& plaintext[0] == 0x4b
    &&& plaintext[1] == 0x4e
    &&& plaintext[2] == 0x53
    &&& plaintext[3] == 0x54
    &&& plaintext[4] == 1
}

/// The payload of a KNST frame, or nothing where the plaintext is no such frame.
pub fn knst_payload(plaintext: &Vec<u8>) -> (r: Option<Vec<u8>>)
    ensures
        is_knst_frame(plaintext@) <==> r is Some,
        r is Some ==> r->0@ == plaintext@.skip(KNST_HEADER_SIZE as int),
{
    if plaintext.len() >= KNST_HEADER_SIZE && plaintext[0] == 0x4b && plaintext[1] == 0x4e
        && plaintext[2] == 0x53 && plaintext[3] == 0x54 && plaintext[4] == 1 {
        let mut payload: Vec<u8> = Vec::new();
        let mut i: usize = KNST_HEADER_SIZE;
        while i < plaintext.len()
            invariant
                KNST_HEADER_SIZE <= i <= plaintext@.len(),
                payload@ == plaintext@.subrange(KNST_HEADER_SIZE as int, i as int),
            decreases plaintext@.len() - i,
        {
            payload.push(plaintext[i]);
            i = i + 1;
        }
        Some(payload)
    } else {
        None
    }
}

/// What the payload of a KNST frame is as a protobuf `MessageContent`.
#[derive(Debug)]
pub enum Decoded {
    /// A text message.
    Text(String),
    /// Content of another kind (media, reaction, …).
    NotText,
    /// No `MessageContent` at all.
    Malformed,
}

/// The displayable text of a decrypted plaintext: the text message of a KNST frame, nothing for
/// other content, the payload itself where it does not decode, and without a frame the whole
/// plaintext.
pub open spec fn plaintext_text(plaintext: Seq<u8>, decoded: Decoded) -> Seq<char> {
    if is_knst_frame(plaintext) {
        match decoded {
            Decoded::Text(t) => t@,
            Decoded::NotText => ""@,
            Decoded::Malformed => lossy_text(plaintext.skip(KNST_HEADER_SIZE as int)),
        }
    } else {
        lossy_text(plaintext)
    }
}

/// Whether a plaintext is text without a frame.
pub open spec fn is_plain_text(plaintext: Seq<u8>) -> bool {
    !is_knst_frame(plaintext) && valid_utf8(plaintext)
}

/// Extracts displayable text from a decrypted plaintext. `decoded` is what the payload of the
/// frame decodes to; it is looked at only where there is a frame.
pub fn decode_plaintext_text(plaintext: &Vec<u8>, decoded: &Decoded) -> (r: String)
    ensures
        r@ == plaintext_text(plaintext@, *decoded),
        !is_knst_frame(plaintext@) && valid_utf8(plaintext@) ==> r@ == decode_utf8(plaintext@),
{
    match knst_payload(plaintext) {
        Some(payload) => match decoded {
            Decoded::Text(t) => t.clone(),
            Decoded::NotText => "".to_string(),
            Decoded::Malformed => utf8_lossy(payload.as_slice()),
        },
        None => utf8_lossy(plaintext.as_slice()),
    }
}

/// Whether a text is content for the user rather than a control message: not empty, not
/// beginning with NUL, and without the markers of session pings and heartbeats.
pub open spec fn is_user_content(text: Seq<char>) -> bool {
    &&& text.len() > 0
    &&& text[0] != '\0'
    &&& !occurs_in("__session_ping_"@, text)
    &&& !occurs_in("__heartbeat__"@, text)
}

/// Decides `is_user_content`.
pub fn has_user_content(text: &str) -> (r: bool)
    ensures
        r == is_user_content(text@),
{
    if text.is_empty() {
        return false;
    }
    let first: char = text.get_char(0);
    first != '\0' && !contains(text, "__session_ping_") && !contains(text, "__heartbeat__")
}

// ── Actions, commands and replies ────────────────────────────────────────────

/// What the messaging core asks the platform to do.
#[derive(Debug)]
pub enum Action {
    /// Establish a session with a contact from its pre-key bundle.
    InitSession { contact_id: String, bundle_json: String },
    /// Handled inside the core.
    DecryptMessage,
    /// Handled inside the core.
    EncryptMessage,
    /// Handled inside the core.
    ApplyPQContribution,
    /// Handled inside the core.
    ArchiveSession,
    /// A message was decrypted.
    MessageDecrypted {
        contact_id: String,
        message_id: String,
        plaintext: Vec<u8>,
        decoded: Decoded,
    },
    /// A call signal was decrypted; calls are not supported.
    CallSignalDecrypted,
    /// The session with a contact must be set up anew.
    SessionHealNeeded { contact_id: String, role: String },
    /// Healing is on cooldown.
    HealSuppressed { contact_id: String, retry_after_ms: u64 },
    SaveSessionToSecureStore { key: String, data: Vec<u8> },
    LoadSessionFromSecureStore { key: String },
    PersistMessage { message_json: String },
    PersistAck { message_id: String, timestamp: u64 },
    PruneAckStore { cutoff_ts: u64 },
    MarkMessageDelivered { message_id: String },
    CheckAckInDb { message_id: String },
    FetchPublicKeyBundle { user_id: String },
    SendEncryptedMessage { to: String, payload: Vec<u8>, message_id: String, content_type: u8 },
    /// Delivery receipts are not sent.
    SendReceipt { message_id: String },
    SendEndSession { contact_id: String },
    SendHeartbeat { contact_id: String },
    NotifyNewMessage { chat_id: String, preview: String },
    NotifySessionCreated { contact_id: String },
    NotifyError { code: String, message: String },
    /// There is one device only.
    NotifyLinkedDevicesOfSessionReset,
    ScheduleTimer { timer_id: String, delay_ms: u64 },
    CancelTimer { timer_id: String },
    SessionTerminated { contact_id: String },
}

/// What the platform tells the messaging core.
#[derive(Debug)]
pub enum IncomingEvent {
    AppLaunched,
    NetworkReconnected,
    MessageReceived {
        message_id: String,
        from: String,
        data: Vec<u8>,
        msg_num: u32,
        kem_ct: Vec<u8>,
        otpk_id: u32,
        is_control: bool,
        content_type: u8,
    },
    AckReceived { message_id: String },
    OutgoingMessage {
        contact_id: String,
        message_id: String,
        plaintext: Vec<u8>,
        content_type: u8,
    },
    SessionInitCompleted { contact_id: String, session_data: Vec<u8> },
    SessionLoaded { key: String, data: Option<Vec<u8>> },
    AckDbResult { message_id: String, is_processed: bool },
    KeyBundleFetched { user_id: String, bundle_json: String },
    TimerFired { timer_id: String },
}

/// One step for the task that owns the messaging core, the database and the stream.
#[derive(Debug)]
pub enum Command {
    /// Count the queued messages of a contact and look at the first; answered by `Pending`.
    LookUpPending { contact_id: String, bundle_json: String },
    /// Start a session as initiator from a bundle, if it parses.
    InitWithBundle { contact_id: String, bundle_json: String },
    /// Start a session as responder from the peer's first message; answered by `Receiving`.
    InitReceiving { contact_id: String, bundle_json: String, wire: Vec<u8>, healing: bool },
    /// Drop the first queued message of a contact; answered by `Popped`.
    PopPending { contact_id: String, plaintext: Vec<u8>, healing: bool },
    /// Take the message that is queued for healing; answered by `HealPayload`.
    TakeHealPayload { contact_id: String },
    /// Fetch the bundle of a contact and wait for it; answered by `Bundle`.
    FetchBundle { contact_id: String, wire: Option<Vec<u8>> },
    /// Fetch a bundle in the background and report it as `KeyBundleFetched`.
    FetchBundleInBackground { user_id: String },
    StoreMessage(StoredMessage),
    SecureSave { key: String, data: Vec<u8> },
    /// Read a value from the secure store; answered by `SecureLoaded`.
    SecureLoad { key: String },
    PersistRecord { table: String, json: String },
    StoreAck { message_id: String, timestamp_ms: i64 },
    PruneAcks { cutoff_ms: i64 },
    MarkDelivered { message_id: String },
    /// Look an acknowledgement up; answered by `AckChecked`.
    CheckAck { message_id: String },
    /// Send an envelope on the stream.
    Send(Box<Envelope>),
    /// Hand an event to the core in a later cycle.
    Emit(IncomingEvent),
    /// Hand `AppLaunched` to the core after a delay.
    RelaunchAfter { delay_ms: u64 },
    StartTimer { timer_id: String, delay_ms: u64 },
    AbortTimer { timer_id: String },
    /// Tell the user interface.
    Notify(BridgeEvent),
}

/// The answer to a command.
#[derive(Debug)]
pub enum Reply {
    Pending { contact_id: String, bundle_json: String, count: usize, wire: Option<Vec<u8>> },
    /// The plaintext of the peer's first message, or nothing where the session was not set up.
    Receiving { contact_id: String, healing: bool, plaintext: Option<Vec<u8>> },
    Popped {
        contact_id: String,
        healing: bool,
        message_id: Option<String>,
        plaintext: Vec<u8>,
        decoded: Decoded,
    },
    HealPayload { contact_id: String, wire: Option<Vec<u8>> },
    /// The fetched bundle, or nothing where it could not be fetched.
    Bundle { contact_id: String, wire: Option<Vec<u8>>, bundle_json: Option<String> },
    SecureLoaded { key: String, data: Option<Vec<u8>> },
    /// The result of the look-up, or nothing where the database failed.
    AckChecked { message_id: String, found: Option<bool> },
}

/// What a step takes from the outside: the time and an ID that nothing else has.
#[derive(Debug)]
pub struct Env {
    /// Unix milliseconds.
    pub now_ms: i64,
    /// A fresh message ID.
    pub fresh_id: String,
}

// ── Dispatcher ───────────────────────────────────────────────────────────────

/// The state of the dispatch loop.
///
/// A cycle begins with an event from the outside ([`Dispatcher::begin_cycle`]). The actions that
/// the core returns for it are dispatched, then the follow-up events of the cycle are handed to
/// the core ([`Dispatcher::take_follow_ups`]) and the actions for those are dispatched too. Actions
/// for follow-ups cause no follow-ups of their own.
#[derive(Debug)]
pub struct Dispatcher {
    /// User ID of this client.
    pub my_user_id: String,
    /// Device ID of this client.
    pub my_device_id: String,
    /// IDs of the timers that were started and not cancelled.
    pub timers: Vec<String>,
    /// Contacts whose session was set up in this cycle.
    pub session_inited: Vec<String>,
    /// Events to hand to the core at the end of this cycle.
    pub follow_ups: Vec<IncomingEvent>,
    /// Whether the follow-ups of this cycle are being handled.
    pub nested: bool,
}

/// Whether a received message is stored and announced: two commands, nothing else.
pub open spec fn surfaces(
    commands: Seq<Command>,
    contact_id: Seq<char>,
    message_id: Seq<char>,
    text: Seq<char>,
    now_ms: i64,
) -> bool {
    &&& commands.len() == 2
    &&& commands[0] matches Command::StoreMessage(m)
    &&& m.id@ == message_id
    &&& m.peer_id@ == contact_id
    &&& m.text@ == text
    &&& m.direction@ == "received"@
    &&& m.timestamp_ms == now_ms
    &&& m.delivery_status@ == ""@
    &&& commands[1] matches Command::Notify(BridgeEvent::NewMessage {
        peer_id,
        message_id: announced_id,
        text: announced_text,
        timestamp_ms,
    })
    &&& peer_id@ == contact_id
    &&& announced_id@ == message_id
    &&& announced_text@ == text
    &&& timestamp_ms == now_ms
}

/// The payload of a request to reset a session.
pub open spec fn reset_payload() -> Seq<u8> {
    Seq::new(16, |i: int| 0u8)
}

/// Whether a command asks a contact to drop its session.
pub open spec fn asks_for_reset(
    command: Command,
    d: Dispatcher,
    contact_id: Seq<char>,
    message_id: Seq<char>,
    payload: Seq<u8>,
) -> bool {
    command matches Command::Send(e) && addressed(
        *e,
        d.my_user_id@,
        d.my_device_id@,
        contact_id,
        payload,
        message_id,
        ContentType::SessionReset,
    )
}

/// Whether an event reports that the session with a contact is set up.
pub open spec fn reports_init(event: IncomingEvent, contact_id: Seq<char>) -> bool {
    event matches IncomingEvent::SessionInitCompleted { contact_id: c, session_data } && c@
        == contact_id && session_data@.len() == 0
}

/// The bytes of a session ping: `PING` between two NULs.
pub open spec fn ping_bytes() -> Seq<u8> {
    seq![0u8, 0x50, 0x49, 0x4e, 0x47, 0]
}

/// The bytes of a heartbeat: `HEARTBEAT` between two NULs.
pub open spec fn heartbeat_bytes() -> Seq<u8> {
    seq![0u8, 0x48, 0x45, 0x41, 0x52, 0x54, 0x42, 0x45, 0x41, 0x54, 0]
}

/// Whether an event asks the core to send `plaintext` as an ordinary message.
pub open spec fn sends_plain(
    event: IncomingEvent,
    contact_id: Seq<char>,
    message_id: Seq<char>,
    plaintext: Seq<u8>,
) -> bool {
    event matches IncomingEvent::OutgoingMessage {
        contact_id: c,
        message_id: m,
        plaintext: p,
        content_type,
    } && c@ == contact_id && m@ == message_id && p@ == plaintext && content_type == 0
}

/// Whether `count` events were added to the follow-ups of the cycle, the one at each place as
/// `fits` has it, and none at all while follow-ups are being handled.
pub open spec fn queued(
    before: Dispatcher,
    after: Dispatcher,
    count: nat,
    fits: spec_fn(int, IncomingEvent) -> bool,
) -> bool {
    if before.nested {
        after.follow_ups@ == before.follow_ups@
    } else {
        &&& after.follow_ups@.len() == before.follow_ups@.len() + count
        &&& after.follow_ups@.take(before.follow_ups@.len() as int) == before.follow_ups@
        &&& forall|i: int|
            0 <= i < count ==> fits(
                i,
                #[trigger] after.follow_ups@.skip(before.follow_ups@.len() as int)[i],
            )
    }
}

/// What a dispatched action does: which commands it gives and what it changes.
pub open spec fn dispatched(
    before: Dispatcher,
    action: Action,
    env: Env,
    after: Dispatcher,
    commands: Seq<Command>,
) -> bool {
    match action {
        Action::InitSession { contact_id, bundle_json } => {
            &&& after == before
            &&& commands == seq![Command::LookUpPending { contact_id, bundle_json }]
        },
        Action::DecryptMessage
        | Action::EncryptMessage
        | Action::ApplyPQContribution
        | Action::ArchiveSession
        | Action::CallSignalDecrypted
        | Action::NotifyLinkedDevicesOfSessionReset => {
            &&& after == before
            &&& commands.len() == 0
        },
        Action::SendReceipt { .. }
        | Action::NotifySessionCreated { .. }
        | Action::SessionTerminated { .. } => {
            &&& after == before
            &&& commands.len() == 0
        },
        Action::MessageDecrypted { contact_id, message_id, plaintext, decoded } => {
            &&& after == before
            &&& surfaces(
                commands,
                contact_id@,
                message_id@,
                plaintext_text(plaintext@, decoded),
                env.now_ms,
            )
            &&& is_plain_text(plaintext@) ==> plaintext_text(plaintext@, decoded) == decode_utf8(
                plaintext@,
            )
        },
        Action::SessionHealNeeded { contact_id, role } => {
            &&& after == before
            &&& if before.inited().contains(contact_id@) {
                commands.len() == 0
            } else if role@ == "Initiator"@ {
                &&& commands.len() == 2
                &&& asks_for_reset(
                    commands[0],
                    before,
                    contact_id@,
                    env.fresh_id@,
                    reset_payload(),
                )
                &&& commands[1] == (Command::FetchBundle { contact_id, wire: None })
            } else {
                commands == seq![Command::TakeHealPayload { contact_id }]
            }
        },
        Action::HealSuppressed { retry_after_ms, .. } => {
            &&& after == before
            &&& commands == seq![Command::RelaunchAfter { delay_ms: retry_after_ms }]
        },
        Action::SaveSessionToSecureStore { key, data } => {
            &&& after == before
            &&& commands == seq![Command::SecureSave { key, data }]
        },
        Action::LoadSessionFromSecureStore { key } => {
            &&& after == before
            &&& commands == seq![Command::SecureLoad { key }]
        },
        Action::PersistMessage { message_json } => {
            &&& after == before
            &&& commands.len() == 1
            &&& commands[0] matches Command::PersistRecord { table, json }
            &&& table@ == "msg"@
            &&& json == message_json
        },
        Action::PersistAck { message_id, timestamp } => {
            &&& after == before
            &&& commands == seq![
                Command::StoreAck { message_id, timestamp_ms: timestamp as i64 },
            ]
        },
        Action::PruneAckStore { cutoff_ts } => {
            &&& after == before
            &&& commands == seq![Command::PruneAcks { cutoff_ms: cutoff_ts as i64 }]
        },
        Action::MarkMessageDelivered { message_id } => {
            &&& after == before
            &&& commands == seq![Command::MarkDelivered { message_id }]
        },
        Action::CheckAckInDb { message_id } => {
            &&& after == before
            &&& commands == seq![Command::CheckAck { message_id }]
        },
        Action::FetchPublicKeyBundle { user_id } => {
            &&& after == before
            &&& commands == seq![Command::FetchBundleInBackground { user_id }]
        },
        Action::SendEncryptedMessage { to, payload, message_id, content_type } => {
            &&& after == before
            &&& commands.len() == 1
            &&& commands[0] matches Command::Send(e)
            &&& addressed(
                *e,
                before.my_user_id@,
                before.my_device_id@,
                to@,
                payload@,
                message_id@,
                content_type_of(content_type),
            )
        },
        Action::SendEndSession { contact_id } => {
            &&& after == before
            &&& commands.len() == 1
            &&& asks_for_reset(
                commands[0],
                before,
                contact_id@,
                "end-session-"@ + contact_id@,
                Seq::empty(),
            )
        },
        Action::SendHeartbeat { contact_id } => {
            &&& after == before
            &&& commands.len() == 1
            &&& commands[0] matches Command::Emit(e)
            &&& sends_plain(e, contact_id@, env.fresh_id@, heartbeat_bytes())
        },
        Action::NotifyNewMessage { chat_id, preview } => {
            &&& after == before
            &&& commands.len() == 1
            &&& commands[0] matches Command::Notify(BridgeEvent::NewMessage {
                peer_id,
                message_id,
                text,
                timestamp_ms,
            })
            &&& peer_id == chat_id
            &&& message_id@ == ""@
            &&& text == preview
            &&& timestamp_ms == env.now_ms
        },
        Action::NotifyError { code, message } => {
            &&& after == before
            &&& commands.len() == 1
            &&& commands[0] matches Command::Notify(BridgeEvent::Error(text))
            &&& text@ == "["@ + code@ + "] "@ + message@
        },
        Action::ScheduleTimer { timer_id, delay_ms } => {
            &&& after == (Dispatcher { timers: after.timers, ..before })
            &&& after.known_timers() == before.known_timers().insert(timer_id@)
            &&& commands == seq![Command::StartTimer { timer_id, delay_ms }]
        },
        Action::CancelTimer { timer_id } => {
            &&& after == (Dispatcher { timers: after.timers, ..before })
            &&& after.known_timers() == before.known_timers().remove(timer_id@)
            &&& if before.known_timers().contains(timer_id@) {
                commands == seq![Command::AbortTimer { timer_id }]
            } else {
                commands.len() == 0
            }
        },
    }
}

/// What the answer to a command does: which commands it gives and what it changes.
pub open spec fn resumed(
    before: Dispatcher,
    reply: Reply,
    env: Env,
    after: Dispatcher,
    commands: Seq<Command>,
) -> bool {
    match reply {
        // The peer spoke first: answer as responder. Otherwise start a session of our own.
        Reply::Pending { contact_id, bundle_json, count, wire } => {
            if count > 0 && wire is Some {
                &&& after == before
                &&& commands == seq![
                    Command::InitReceiving {
                        contact_id,
                        bundle_json,
                        wire: wire->0,
                        healing: false,
                    },
                ]
            } else {
                &&& commands == seq![Command::InitWithBundle { contact_id, bundle_json }]
                &&& after == (Dispatcher {
                    follow_ups: after.follow_ups,
                    session_inited: after.session_inited,
                    ..before
                })
                &&& after.inited() == if count == 0 {
                    before.inited().insert(contact_id@)
                } else {
                    before.inited()
                }
                &&& queued(
                    before,
                    after,
                    1,
                    |i: int, e: IncomingEvent| reports_init(e, contact_id@),
                )
            }
        },
        Reply::Receiving { contact_id, healing, plaintext } => {
            &&& after == before
            &&& match plaintext {
                Some(p) => commands == seq![
                    Command::PopPending { contact_id, plaintext: p, healing },
                ],
                None => if healing {
                    &&& commands.len() == 1
                    &&& asks_for_reset(
                        commands[0],
                        before,
                        contact_id@,
                        env.fresh_id@,
                        reset_payload(),
                    )
                } else {
                    commands.len() == 0
                },
            }
        },
        Reply::Popped { contact_id, healing, message_id, plaintext, decoded } => {
            let text = plaintext_text(plaintext@, decoded);
            let id = match message_id {
                Some(m) => m@,
                None => env.fresh_id@,
            };
            &&& after == (Dispatcher {
                follow_ups: after.follow_ups,
                session_inited: after.session_inited,
                ..before
            })
            &&& after.inited() == if healing {
                before.inited()
            } else {
                before.inited().insert(contact_id@)
            }
            &&& is_plain_text(plaintext@) ==> text == decode_utf8(plaintext@)
            &&& if is_user_content(text) {
                surfaces(commands, contact_id@, id, text, env.now_ms)
            } else {
                commands.len() == 0
            }
            &&& queued(
                before,
                after,
                1,
                |i: int, e: IncomingEvent| reports_init(e, contact_id@),
            )
        },
        Reply::HealPayload { contact_id, wire } => {
            &&& after == before
            &&& match wire {
                Some(w) => commands == seq![Command::FetchBundle { contact_id, wire }],
                None => commands.len() == 0,
            }
        },
        Reply::Bundle { contact_id, wire, bundle_json } => {
            match (bundle_json, wire) {
                (None, _) => after == before && commands.len() == 0,
                (Some(b), Some(w)) => {
                    &&& after == before
                    &&& commands == seq![
                        Command::InitReceiving {
                            contact_id,
                            bundle_json: b,
                            wire: w,
                            healing: true,
                        },
                    ]
                },
                (Some(b), None) => {
                    &&& commands == seq![Command::InitWithBundle { contact_id, bundle_json: b }]
                    &&& after == (Dispatcher { follow_ups: after.follow_ups, ..before })
                    &&& queued(
                        before,
                        after,
                        2,
                        |i: int, e: IncomingEvent|
                            if i == 0 {
                                reports_init(e, contact_id@)
                            } else {
                                sends_plain(e, contact_id@, env.fresh_id@, ping_bytes())
                            },
                    )
                },
            }
        },
        Reply::SecureLoaded { key, data } => {
            &&& commands.len() == 0
            &&& after == (Dispatcher { follow_ups: after.follow_ups, ..before })
            &&& queued(
                before,
                after,
                1,
                |i: int, e: IncomingEvent| e == (IncomingEvent::SessionLoaded { key, data }),
            )
        },
        Reply::AckChecked { message_id, found } => {
            &&& commands.len() == 0
            &&& after == (Dispatcher { follow_ups: after.follow_ups, ..before })
            &&& queued(
                before,
                after,
                1,
                |i: int, e: IncomingEvent|
                    e == (IncomingEvent::AckDbResult {
                        message_id,
                        is_processed: found == Some(true),
                    }),
            )
        },
    }
}

/// An event that asks the core to send `plaintext` as an ordinary message.
fn plain_message(contact_id: String, message_id: String, plaintext: Vec<u8>) -> (r: IncomingEvent)
    ensures
        sends_plain(r, contact_id@, message_id@, plaintext@),
{
    IncomingEvent::OutgoingMessage { contact_id, message_id, plaintext, content_type: 0 }
}

/// The two commands that store and announce a received message.
fn surface(contact_id: String, message_id: String, text: String, now_ms: i64) -> (r: Vec<Command>)
    ensures
        surfaces(r@, contact_id@, message_id@, text@, now_ms),
{
    let mut commands: Vec<Command> = Vec::new();
    commands.push(
        Command::StoreMessage(
            StoredMessage {
                id: message_id.clone(),
                peer_id: contact_id.clone(),
                text: text.clone(),
                direction: "received".to_string(),
                timestamp_ms: now_ms,
                delivery_status: "".to_string(),
            },
        ),
    );
    commands.push(
        Command::Notify(
            BridgeEvent::NewMessage { peer_id: contact_id, message_id, text, timestamp_ms: now_ms },
        ),
    );
    commands
}

/// A list of one command.
fn just(command: Command) -> (r: Vec<Command>)
    ensures
        r@ == seq![command],
{
    let mut commands: Vec<Command> = Vec::new();
    commands.push(command);
    commands
}

impl Dispatcher {
    /// The contacts whose session was set up in this cycle.
    pub open spec fn inited(self) -> Set<Seq<char>> {
        names(self.session_inited@)
    }

    /// The timers that were started and not cancelled.
    pub open spec fn known_timers(self) -> Set<Seq<char>> {
        names(self.timers@)
    }

    /// No timer is listed twice.
    pub open spec fn wf(self) -> bool {
        self.timers@.map_values(|s: String| s@).no_duplicates()
    }

    /// A dispatcher that has not run yet.
    pub fn new(my_user_id: String, my_device_id: String) -> (r: Self)
        ensures
            r.wf(),
            r.my_user_id == my_user_id,
            r.my_device_id == my_device_id,
            r.timers@.len() == 0,
            r.session_inited@.len() == 0,
            r.follow_ups@.len() == 0,
            !r.nested,
    {
        Dispatcher {
            my_user_id,
            my_device_id,
            timers: Vec::new(),
            session_inited: Vec::new(),
            follow_ups: Vec::new(),
            nested: false,
        }
    }

    /// Begins a cycle: nothing has been set up in it and nothing follows yet.
    pub fn begin_cycle(&mut self)
        ensures
            *final(self) == (Dispatcher {
                session_inited: final(self).session_inited,
                follow_ups: final(self).follow_ups,
                nested: false,
                ..*old(self)
            }),
            final(self).session_inited@.len() == 0,
            final(self).follow_ups@.len() == 0,
    {
        self.session_inited = Vec::new();
        self.follow_ups = Vec::new();
        self.nested = false;
    }

    /// The follow-ups of this cycle, in order. From here on nothing more is added to them, but
    /// the contacts set up in this cycle stay known.
    pub fn take_follow_ups(&mut self) -> (r: Vec<IncomingEvent>)
        ensures
            r@ == old(self).follow_ups@,
            *final(self) == (Dispatcher {
                follow_ups: final(self).follow_ups,
                nested: true,
                ..*old(self)
            }),
            final(self).follow_ups@.len() == 0,
    {
        let mut taken: Vec<IncomingEvent> = Vec::new();
        std::mem::swap(&mut taken, &mut self.follow_ups);
        self.nested = true;
        taken
    }

    /// Adds an event to the follow-ups, unless follow-ups are being handled.
    fn follow_up(&mut self, event: IncomingEvent)
        ensures
            *final(self) == (Dispatcher { follow_ups: final(self).follow_ups, ..*old(self) }),
            final(self).follow_ups@ == if old(self).nested {
                old(self).follow_ups@
            } else {
                old(self).follow_ups@.push(event)
            },
    {
        if !self.nested {
            self.follow_ups.push(event);
        }
    }

    /// The command that asks a contact to drop its session.
    fn reset_request(&self, contact_id: &str, message_id: String, payload: Vec<u8>) -> (r: Command)
        ensures
            asks_for_reset(r, *self, contact_id@, message_id@, payload@),
    {
        Command::Send(
            Box::new(
                build_control_envelope(
                    self.my_user_id.as_str(),
                    self.my_device_id.as_str(),
                    contact_id,
                    ContentType::SessionReset,
                    payload,
                    message_id,
                ),
            ),
        )
    }

    /// Turns an action into the commands that carry it out.
    pub fn dispatch(&mut self, action: Action, env: Env) -> (r: Vec<Command>)
        requires
            old(self).wf(),
        ensures
            dispatched(*old(self), action, env, *final(self), r@),
            final(self).wf(),
    {
        match action {
            Action::InitSession { contact_id, bundle_json } => just(
                Command::LookUpPending { contact_id, bundle_json },
            ),
            Action::DecryptMessage
            | Action::EncryptMessage
            | Action::ApplyPQContribution
            | Action::ArchiveSession
            | Action::CallSignalDecrypted
            | Action::NotifyLinkedDevicesOfSessionReset => Vec::new(),
            Action::SendReceipt { .. }
            | Action::NotifySessionCreated { .. }
            | Action::SessionTerminated { .. } => Vec::new(),
            Action::MessageDecrypted { contact_id, message_id, plaintext, decoded } => {
                let text = decode_plaintext_text(&plaintext, &decoded);
                surface(contact_id, message_id, text, env.now_ms)
            },
            Action::SessionHealNeeded { contact_id, role } => {
                if position_of(&self.session_inited, contact_id.as_str()).is_some() {
                    return Vec::new();
                }
                if same_text(role.as_str(), "Initiator") {
                    let payload: Vec<u8> = vec![0u8; 16];
                    assert(payload@ == reset_payload());
                    let mut commands: Vec<Command> = Vec::new();
                    commands.push(self.reset_request(contact_id.as_str(), env.fresh_id, payload));
                    commands.push(Command::FetchBundle { contact_id, wire: None });
                    commands
                } else {
                    just(Command::TakeHealPayload { contact_id })
                }
            },
            Action::HealSuppressed { retry_after_ms, .. } => just(
                Command::RelaunchAfter { delay_ms: retry_after_ms },
            ),
            Action::SaveSessionToSecureStore { key, data } => just(
                Command::SecureSave { key, data },
            ),
            Action::LoadSessionFromSecureStore { key } => just(Command::SecureLoad { key }),
            Action::PersistMessage { message_json } => just(
                Command::PersistRecord { table: "msg".to_string(), json: message_json },
            ),
            Action::PersistAck { message_id, timestamp } => just(
                Command::StoreAck {
                    message_id,
                    timestamp_ms: #[verifier::truncate]
                    (timestamp as i64),
                },
            ),
            Action::PruneAckStore { cutoff_ts } => just(
                Command::PruneAcks {
                    cutoff_ms: #[verifier::truncate]
                    (cutoff_ts as i64),
                },
            ),
            Action::MarkMessageDelivered { message_id } => just(
                Command::MarkDelivered { message_id },
            ),
            Action::CheckAckInDb { message_id } => just(Command::CheckAck { message_id }),
            Action::FetchPublicKeyBundle { user_id } => just(
                Command::FetchBundleInBackground { user_id },
            ),
            Action::SendEncryptedMessage { to, payload, message_id, content_type } => {
                let envelope = build_envelope(
                    self.my_user_id.as_str(),
                    self.my_device_id.as_str(),
                    to.as_str(),
                    payload,
                    message_id,
                    content_type_from_u8(content_type),
                );
                just(Command::Send(Box::new(envelope)))
            },
            Action::SendEndSession { contact_id } => {
                let message_id = cat2("end-session-", contact_id.as_str());
                let payload: Vec<u8> = Vec::new();
                just(self.reset_request(contact_id.as_str(), message_id, payload))
            },
            Action::SendHeartbeat { contact_id } => {
                let plaintext: Vec<u8> = vec![
                    0u8,
                    0x48,
                    0x45,
                    0x41,
                    0x52,
                    0x54,
                    0x42,
                    0x45,
                    0x41,
                    0x54,
                    0,
                ];
                assert(plaintext@ == heartbeat_bytes());
                just(Command::Emit(plain_message(contact_id, env.fresh_id, plaintext)))
            },
            Action::NotifyNewMessage { chat_id, preview } => just(
                Command::Notify(
                    BridgeEvent::NewMessage {
                        peer_id: chat_id,
                        message_id: "".to_string(),
                        text: preview,
                        timestamp_ms: env.now_ms,
                    },
                ),
            ),
            Action::NotifyError { code, message } => just(
                Command::Notify(
                    BridgeEvent::Error(cat4("[", code.as_str(), "] ", message.as_str())),
                ),
            ),
            Action::ScheduleTimer { timer_id, delay_ms } => {
                add_name(&mut self.timers, timer_id.clone());
                just(Command::StartTimer { timer_id, delay_ms })
            },
            Action::CancelTimer { timer_id } => {
                if remove_name(&mut self.timers, timer_id.as_str()) {
                    just(Command::AbortTimer { timer_id })
                } else {
                    Vec::new()
                }
            },
        }
    }

    /// Reports that the session with a contact is set up, after the dispatch of this cycle.
    fn report_init(&mut self, contact_id: String)
        ensures
            *final(self) == (Dispatcher { follow_ups: final(self).follow_ups, ..*old(self) }),
            queued(
                *old(self),
                *final(self),
                1,
                |i: int, e: IncomingEvent| reports_init(e, contact_id@),
            ),
    {
        let ghost before = self.follow_ups@;
        self.follow_up(
            IncomingEvent::SessionInitCompleted { contact_id, session_data: Vec::new() },
        );
        assert(self.follow_ups@.take(before.len() as int) == before);
    }

    /// Takes the answer to a command and gives the commands that come next.
    pub fn resume(&mut self, reply: Reply, env: Env) -> (r: Vec<Command>)
        requires
            old(self).wf(),
        ensures
            resumed(*old(self), reply, env, *final(self), r@),
            final(self).wf(),
    {
        let ghost before = self.follow_ups@;
        match reply {
            Reply::Pending { contact_id, bundle_json, count, wire } => {
                if count == 0 {
                    add_name(&mut self.session_inited, contact_id.clone());
                    self.report_init(contact_id.clone());
                    return just(Command::InitWithBundle { contact_id, bundle_json });
                }
                match wire {
                    Some(wire) => just(
                        Command::InitReceiving { contact_id, bundle_json, wire, healing: false },
                    ),
                    None => {
                        self.report_init(contact_id.clone());
                        just(Command::InitWithBundle { contact_id, bundle_json })
                    },
                }
            },
            Reply::Receiving { contact_id, healing, plaintext } => match plaintext {
                Some(plaintext) => just(Command::PopPending { contact_id, plaintext, healing }),
                None => {
                    if healing {
                        let payload: Vec<u8> = vec![0u8; 16];
                        assert(payload@ == reset_payload());
                        just(self.reset_request(contact_id.as_str(), env.fresh_id, payload))
                    } else {
                        Vec::new()
                    }
                },
            },
            Reply::Popped { contact_id, healing, message_id, plaintext, decoded } => {
                let message_id = match message_id {
                    Some(m) => m,
                    None => env.fresh_id,
                };
                if !healing {
                    add_name(&mut self.session_inited, contact_id.clone());
                }
                self.report_init(contact_id.clone());
                let text = decode_plaintext_text(&plaintext, &decoded);
                if has_user_content(text.as_str()) {
                    surface(contact_id, message_id, text, env.now_ms)
                } else {
                    Vec::new()
                }
            },
            Reply::HealPayload { contact_id, wire } => match wire {
                Some(w) => just(Command::FetchBundle { contact_id, wire: Some(w) }),
                None => Vec::new(),
            },
            Reply::Bundle { contact_id, wire, bundle_json } => {
                let bundle_json = match bundle_json {
                    Some(b) => b,
                    None => return Vec::new(),
                };
                match wire {
                    Some(wire) => just(
                        Command::InitReceiving { contact_id, bundle_json, wire, healing: true },
                    ),
                    None => {
                        self.report_init(contact_id.clone());
                        let ghost first = self.follow_ups@.skip(before.len() as int)[0];
                        let plaintext: Vec<u8> = vec![0u8, 0x50, 0x49, 0x4e, 0x47, 0];
                        assert(plaintext@ == ping_bytes());
                        self.follow_up(plain_message(contact_id.clone(), env.fresh_id, plaintext));
                        assert(self.follow_ups@.take(before.len() as int) == before);
                        assert(self.nested || self.follow_ups@.skip(before.len() as int)[0]
                            == first);
                        just(Command::InitWithBundle { contact_id, bundle_json })
                    },
                }
            },
            Reply::SecureLoaded { key, data } => {
                self.follow_up(IncomingEvent::SessionLoaded { key, data });
                assert(self.follow_ups@.take(before.len() as int) == before);
                Vec::new()
            },
            Reply::AckChecked { message_id, found } => {
                let is_processed = match found {
                    Some(b) => b,
                    None => false,
                };
                self.follow_up(IncomingEvent::AckDbResult { message_id, is_processed });
                assert(self.follow_ups@.take(before.len() as int) == before);
                Vec::new()
            },
        }
    }
}

// ── Commands for the database ────────────────────────────────────────────────

/// What became of a command that was given to the database.
pub enum Carried {
    /// It was carried out, or why not, with the reply to it where it asks for one. A failure changes
    /// nothing, and what could not be read is missing in the reply.
    Done { result: Result<(), StorageError>, reply: Option<Reply> },
    /// It is not for the database.
    Elsewhere(Command),
}

/// Whether the database took something in, or stayed as it was and failed. What is wanted is
/// `wanted`, where SQLite compares the IDs reliably.
pub open spec fn took_in(
    before: Storage,
    after: Storage,
    reliable: bool,
    wanted: Contents,
    outcome: Carried,
) -> bool {
    &&& outcome matches Carried::Done { result, reply }
    &&& reply is None
    &&& match result {
        Ok(_) => before.is_own() && reliable ==> after.contents() == wanted,
        Err(e) => e is Sqlite && (before.is_own() ==> after.contents() == before.contents()),
    }
}

/// What a command does to the database, and what it is answered.
pub open spec fn carried(
    before: Storage,
    command: Command,
    after: Storage,
    outcome: Carried,
) -> bool {
    let c = before.contents();
    &&& before.is_own() ==> after.is_own()
    &&& match command {
        Command::StoreMessage(m) => {
            &&& took_in(before, after, is_clean(m.id@), with_message(c, m.id@, m.row()), outcome)
            &&& before.is_own() && !is_direction(m.direction@) ==> outcome->result is Err
        },
        Command::SecureSave { key, data } => took_in(
            before,
            after,
            is_clean(key@),
            Contents { keys: c.keys.insert(key@, data@), ..c },
            outcome,
        ),
        Command::SecureLoad { key } => {
            &&& after == before
            &&& outcome matches Carried::Done {
                result,
                reply: Some(Reply::SecureLoaded { key: k, data }),
            }
            &&& k == key
            &&& match result {
                Ok(_) => before.is_own() && is_clean(key@) ==> match data {
                    Some(d) => c.keys.contains_key(key@) && c.keys[key@] == d@,
                    None => !c.keys.contains_key(key@),
                },
                Err(e) => data is None && (before.is_own() && is_clean(key@) ==> e is Sqlite),
            }
        },
        Command::PersistRecord { table, json } => took_in(
            before,
            after,
            true,
            Contents { records: c.records.push((table@, json@)), ..c },
            outcome,
        ),
        Command::StoreAck { message_id, timestamp_ms } => took_in(
            before,
            after,
            is_clean(message_id@),
            Contents { acks: with_ack(c.acks, message_id@, timestamp_ms), ..c },
            outcome,
        ),
        Command::PruneAcks { cutoff_ms } => took_in(
            before,
            after,
            true,
            Contents { acks: not_before(c.acks, cutoff_ms), ..c },
            outcome,
        ),
        Command::MarkDelivered { message_id } => took_in(
            before,
            after,
            is_clean(message_id@),
            with_delivered(c, message_id@),
            outcome,
        ),
        Command::CheckAck { message_id } => {
            &&& after == before
            &&& outcome matches Carried::Done {
                result,
                reply: Some(Reply::AckChecked { message_id: m, found }),
            }
            &&& m == message_id
            &&& match result {
                Ok(_) => found is Some && (before.is_own() && is_clean(message_id@) ==> found->0
                    == c.acks.contains_key(message_id@)),
                Err(e) => found is None && (before.is_own() && is_clean(message_id@) ==> e
                    is Sqlite),
            }
        },
        _ => after == before && outcome == Carried::Elsewhere(command),
    }
}

/// Carries out a command that is for the database.
pub fn carry_out(storage: &mut Storage, command: Command) -> (r: Carried)
    ensures
        carried(*old(storage), command, *final(storage), r),
{
    match command {
        Command::StoreMessage(m) => {
            let result = storage.store_message(&m);
            Carried::Done { result, reply: None }
        },
        Command::SecureSave { key, data } => {
            let result = storage.secure_save(key.as_str(), data.as_slice());
            Carried::Done { result, reply: None }
        },
        Command::SecureLoad { key } => match storage.secure_load(key.as_str()) {
            Ok(data) => Carried::Done {
                result: Ok(()),
                reply: Some(Reply::SecureLoaded { key, data }),
            },
            Err(e) => Carried::Done {
                result: Err(e),
                reply: Some(Reply::SecureLoaded { key, data: None }),
            },
        },
        Command::PersistRecord { table, json } => {
            let result = storage.persist_record(table.as_str(), json.as_str());
            Carried::Done { result, reply: None }
        },
        Command::StoreAck { message_id, timestamp_ms } => {
            let result = storage.store_ack(message_id.as_str(), timestamp_ms);
            Carried::Done { result, reply: None }
        },
        Command::PruneAcks { cutoff_ms } => {
            let result = storage.prune_acks(cutoff_ms);
            Carried::Done { result, reply: None }
        },
        Command::MarkDelivered { message_id } => {
            let result = storage.mark_delivered(message_id.as_str());
            Carried::Done { result, reply: None }
        },
        Command::CheckAck { message_id } => match storage.has_ack(message_id.as_str()) {
            Ok(b) => Carried::Done {
                result: Ok(()),
                reply: Some(Reply::AckChecked { message_id, found: Some(b) }),
            },
            Err(e) => Carried::Done {
                result: Err(e),
                reply: Some(Reply::AckChecked { message_id, found: None }),
            },
        },
        other => Carried::Elsewhere(other),
    }
}

// ── Events from the stream ───────────────────────────────────────────────────

/// What the header of an encrypted message says.
#[derive(Debug)]
pub struct WireHeader {
    pub message_number: u32,
    pub kem_ciphertext: Option<Vec<u8>>,
    pub one_time_prekey_id: u32,
}

/// What an event of the stream is to the user interface.
pub open spec fn shown_of(event: StreamEvent, shown: Option<BridgeEvent>) -> bool {
    match event {
        StreamEvent::Connected => shown is Some && shown->0 is Error && (shown->0->0)@
            == "Stream connected"@,
        StreamEvent::Disconnected => shown is Some && shown->0 is Error && (shown->0->0)@
            == "Stream disconnected"@,
        _ => shown is None,
    }
}

/// What a message with a readable header is to the messaging core.
pub open spec fn received(envelope: Envelope, header: WireHeader, event: IncomingEvent) -> bool {
    &&& event is MessageReceived
    &&& event->MessageReceived_message_id@ == match envelope.message_id {
        Some(id) => id@,
        None => Seq::empty(),
    }
    &&& event->from@ == match envelope.sender {
        Some(id) => id@,
        None => Seq::empty(),
    }
    &&& event->MessageReceived_data@ == envelope.encrypted_payload@
    &&& event->msg_num == header.message_number
    &&& event->kem_ct@ == match header.kem_ciphertext {
        Some(ct) => ct@,
        None => Seq::empty(),
    }
    &&& event->otpk_id == header.one_time_prekey_id
    &&& event->MessageReceived_content_type == envelope.content_type as u8
    &&& event->is_control == (envelope.content_type as u8 == ContentType::SessionReset.number()
        || envelope.content_type as u8 == ContentType::SessionResetInit.number())
}

/// What an event of the stream is to the messaging core, where `header` is what could be read of a
/// message's header.
pub open spec fn handed_on(
    event: StreamEvent,
    header: Option<WireHeader>,
    handed: Option<IncomingEvent>,
) -> bool {
    match event {
        StreamEvent::Message(envelope) => match header {
            Some(h) => handed is Some && received(*envelope, h, handed->0),
            None => handed is None,
        },
        StreamEvent::Ack(id) => handed == Some(IncomingEvent::AckReceived { message_id: id }),
        StreamEvent::Connected => handed == Some(IncomingEvent::NetworkReconnected),
        StreamEvent::Disconnected => handed is None,
    }
}

/// What an event of the stream is to the user interface and to the messaging core. A message whose
/// header cannot be read is dropped.
pub fn relay(event: StreamEvent, header: Option<WireHeader>) -> (r: (
    Option<BridgeEvent>,
    Option<IncomingEvent>,
))
    ensures
        shown_of(event, r.0),
        handed_on(event, header, r.1),
{
    match event {
        StreamEvent::Message(envelope) => match header {
            Some(h) => {
                let envelope = *envelope;
                let message_id = match envelope.message_id {
                    Some(id) => id,
                    None => String::new(),
                };
                let from = match envelope.sender {
                    Some(id) => id,
                    None => String::new(),
                };
                let kem_ct = match h.kem_ciphertext {
                    Some(ct) => ct,
                    None => Vec::new(),
                };
                let content_type: u8 = #[verifier::truncate]
                (envelope.content_type as u8);
                (
                    None,
                    Some(
                        IncomingEvent::MessageReceived {
                            message_id,
                            from,
                            data: envelope.encrypted_payload,
                            msg_num: h.message_number,
                            kem_ct,
                            otpk_id: h.one_time_prekey_id,
                            is_control: is_control_content(content_type),
                            content_type,
                        },
                    ),
                )
            },
            None => (None, None),
        },
        StreamEvent::Ack(id) => (None, Some(IncomingEvent::AckReceived { message_id: id })),
        StreamEvent::Connected => (
            Some(BridgeEvent::Error("Stream connected".to_string())),
            Some(IncomingEvent::NetworkReconnected),
        ),
        StreamEvent::Disconnected => (
            Some(BridgeEvent::Error("Stream disconnected".to_string())),
            None,
        ),
    }
}

/// Whether an event tells the messaging core of a bundle that was asked for.
pub open spec fn reports_bundle(
    r: IncomingEvent,
    user_id: String,
    bundle_json: Option<String>,
) -> bool {
    &&& r is KeyBundleFetched
    &&& r->user_id == user_id
    &&& r->bundle_json@ == match bundle_json {
        Some(b) => b@,
        None => Seq::empty(),
    }
}

/// What the messaging core is told of a bundle that was asked for: it is empty where it could not be
/// fetched.
pub fn bundle_fetched(user_id: String, bundle_json: Option<String>) -> (r: IncomingEvent)
    ensures
        reports_bundle(r, user_id, bundle_json),
{
    let bundle_json = match bundle_json {
        Some(b) => b,
        None => String::new(),
    };
    IncomingEvent::KeyBundleFetched { user_id, bundle_json }
}

/// What one client sends is what the messaging core of the other is handed: sender, message ID,
/// payload and kind of content.
pub proof fn sent_message_is_handed_on(
    e: Envelope,
    from_user: Seq<char>,
    from_device: Seq<char>,
    to_user: Seq<char>,
    payload: Seq<u8>,
    message_id: Seq<char>,
    content_type: ContentType,
    header: WireHeader,
    event: IncomingEvent,
)
    requires
        addressed(e, from_user, from_device, to_user, payload, message_id, content_type),
        received(e, header, event),
    ensures
        event->from@ == from_user,
        event->MessageReceived_message_id@ == message_id,
        event->MessageReceived_data@ == payload,
        content_type_of(event->MessageReceived_content_type) == content_type,
        event->is_control == (content_type is SessionReset || content_type is SessionResetInit),
{
}

/// A decrypted message is stored under its ID as received where the database reports success; where it
/// reports a failure, which is then its own, nothing is changed.
pub proof fn decrypted_message_is_stored(
    d: Dispatcher,
    contact_id: String,
    message_id: String,
    plaintext: Vec<u8>,
    decoded: Decoded,
    env: Env,
    after: Dispatcher,
    commands: Seq<Command>,
    storage: Storage,
    later: Storage,
    outcome: Carried,
)
    requires
        dispatched(
            d,
            Action::MessageDecrypted { contact_id, message_id, plaintext, decoded },
            env,
            after,
            commands,
        ),
        is_clean(message_id@),
        storage.is_own(),
        carried(storage, commands[0], later, outcome),
    ensures
        outcome is Done,
        match outcome->result {
            Ok(_) => later.contents() == with_message(
                storage.contents(),
                message_id@,
                (
                    contact_id@,
                    plaintext_text(plaintext@, decoded),
                    "received"@,
                    env.now_ms,
                    ""@,
                ),
            ),
            Err(e) => e is Sqlite && later.contents() == storage.contents(),
        },
{
}

/// Within a cycle, no step takes a contact out of those whose session was set up.
pub proof fn inited_only_grows(
    before: Dispatcher,
    action: Action,
    reply: Reply,
    env: Env,
    after: Dispatcher,
    commands: Seq<Command>,
)
    requires
        dispatched(before, action, env, after, commands) || resumed(
            before,
            reply,
            env,
            after,
            commands,
        ),
    ensures
        before.inited().subset_of(after.inited()),
        after.nested == before.nested,
{
}

/// Once a session was set up from queued or no messages, a request to heal it is ignored for the
/// rest of the cycle: it gives no commands and changes nothing.
pub proof fn init_suppresses_heal(
    before: Dispatcher,
    reply: Reply,
    env: Env,
    after: Dispatcher,
    commands: Seq<Command>,
    later: Dispatcher,
    contact_id: String,
    role: String,
    last: Dispatcher,
    last_commands: Seq<Command>,
)
    requires
        resumed(before, reply, env, after, commands),
        match reply {
            Reply::Pending { contact_id: c, count, .. } => c@ == contact_id@ && count == 0,
            Reply::Popped { contact_id: c, healing, .. } => c@ == contact_id@ && !healing,
            _ => false,
        },
        after.inited().subset_of(later.inited()),
        dispatched(
            later,
            Action::SessionHealNeeded { contact_id, role },
            env,
            last,
            last_commands,
        ),
    ensures
        last_commands.len() == 0,
        last == later,
{
}

/// While the follow-ups of a cycle are handled, no further follow-up is queued.
pub proof fn follow_ups_do_not_nest(
    before: Dispatcher,
    action: Action,
    reply: Reply,
    env: Env,
    after: Dispatcher,
    commands: Seq<Command>,
)
    requires
        before.nested,
        dispatched(before, action, env, after, commands) || resumed(
            before,
            reply,
            env,
            after,
            commands,
        ),
    ensures
        after.follow_ups@ == before.follow_ups@,
{
}

} // verus!
