//! The messaging core, the database and the peers: what becomes of an action in the end.

use vstd::prelude::*;
use vstd::utf8::*;

use crate::bridge::BridgeEvent;
use crate::orchestrator_task::{
    asks_for_reset, carried, dispatched, handed_on, is_knst_frame, is_user_content, plaintext_text,
    received, reports_bundle, resumed, sent_message_is_handed_on, Action, Carried, Command, Decoded,
    Dispatcher, Env, IncomingEvent, Reply, WireHeader,
};
use crate::storage::{added_record_is_last, is_clean, last_record, Storage};
use crate::streaming::{content_type_of, direct_conversation_is_symmetric, ContentType, StreamEvent};
use crate::text::{occurs_in, stands_at};

verus! {

// ── The messaging core and the database ──────────────────────────────────────

/// Whether an action is dispatched and its first command is then given to the database.
pub open spec fn performed(
    d: Dispatcher,
    action: Action,
    env: Env,
    after: Dispatcher,
    before: Storage,
    later: Storage,
    outcome: Carried,
) -> bool {
    exists|commands: Seq<Command>| #[trigger]
        dispatched(d, action, env, after, commands) && commands.len() > 0 && carried(
            before,
            commands[0],
            later,
            outcome,
        )
}

/// What the messaging core is told of an acknowledgement that it asks for is what the database holds:
/// the message counts as processed exactly where there is an acknowledgement for it. Where the
/// database fails it does not, and nothing is changed either way.
pub proof fn acknowledgement_is_reported(
    d: Dispatcher,
    message_id: String,
    env: Env,
    asked: Dispatcher,
    storage: Storage,
    later: Storage,
    outcome: Carried,
    waiting: Dispatcher,
    env_later: Env,
    told: Dispatcher,
    commands: Seq<Command>,
)
    requires
        storage.is_own(),
        is_clean(message_id@),
        performed(d, Action::CheckAckInDb { message_id }, env, asked, storage, later, outcome),
        outcome is Done && outcome->reply is Some,
        resumed(waiting, outcome->reply->0, env_later, told, commands),
        !waiting.nested,
    ensures
        later == storage,
        told.follow_ups@.len() == waiting.follow_ups@.len() + 1,
        told.follow_ups@.last() matches IncomingEvent::AckDbResult { message_id: id, is_processed }
            && id == message_id && is_processed == (outcome->result is Ok
            && storage.contents().acks.contains_key(message_id@)),
{
    let n = waiting.follow_ups@.len() as int;
    assert(told.follow_ups@.skip(n)[0] == told.follow_ups@[n]);
}

/// An acknowledgement that the messaging core has stored is reported as there, whatever its time.
pub proof fn stored_acknowledgement_is_reported(
    d: Dispatcher,
    stored_id: String,
    timestamp: u64,
    env: Env,
    d1: Dispatcher,
    before: Storage,
    storage: Storage,
    stored: Carried,
    asked_id: String,
    d2: Dispatcher,
    later: Storage,
    outcome: Carried,
    waiting: Dispatcher,
    told: Dispatcher,
    commands: Seq<Command>,
)
    requires
        before.is_own(),
        is_clean(stored_id@) && asked_id@ == stored_id@,
        performed(
            d,
            Action::PersistAck { message_id: stored_id, timestamp },
            env,
            d1,
            before,
            storage,
            stored,
        ),
        stored is Done && stored->result is Ok,
        performed(
            d1,
            Action::CheckAckInDb { message_id: asked_id },
            env,
            d2,
            storage,
            later,
            outcome,
        ),
        outcome is Done && outcome->result is Ok && outcome->reply is Some,
        resumed(waiting, outcome->reply->0, env, told, commands),
        !waiting.nested,
    ensures
        told.follow_ups@.last() matches IncomingEvent::AckDbResult { message_id: id, is_processed }
            && id@ == stored_id@ && is_processed,
{
    acknowledgement_is_reported(
        d1,
        asked_id,
        env,
        d2,
        storage,
        later,
        outcome,
        waiting,
        env,
        told,
        commands,
    );
}

/// An acknowledgement is stored with the time that the messaging core gives; one that is there already
/// keeps its own, and so do all others.
pub proof fn acknowledgement_keeps_its_time(
    d: Dispatcher,
    message_id: String,
    timestamp: u64,
    env: Env,
    after: Dispatcher,
    before: Storage,
    later: Storage,
    outcome: Carried,
)
    requires
        before.is_own(),
        is_clean(message_id@),
        timestamp <= i64::MAX,
        performed(
            d,
            Action::PersistAck { message_id, timestamp },
            env,
            after,
            before,
            later,
            outcome,
        ),
        outcome is Done && outcome->result is Ok,
    ensures
        later.contents().acks.contains_key(message_id@),
        !before.contents().acks.contains_key(message_id@)
            ==> later.contents().acks[message_id@] == timestamp,
        forall|id: Seq<char>| #[trigger]
            before.contents().acks.contains_key(id) ==> later.contents().acks.contains_key(id)
                && later.contents().acks[id] == before.contents().acks[id],
        forall|id: Seq<char>|
            id != message_id@ && #[trigger] later.contents().acks.contains_key(id)
                ==> before.contents().acks.contains_key(id),
{
}

/// After those before a time were pruned, an acknowledgement is reported as there exactly where it was
/// there and its time is not before that.
pub proof fn pruned_acknowledgement_is_not_reported(
    d: Dispatcher,
    cutoff_ts: u64,
    env: Env,
    d1: Dispatcher,
    before: Storage,
    storage: Storage,
    pruned: Carried,
    message_id: String,
    d2: Dispatcher,
    later: Storage,
    outcome: Carried,
    waiting: Dispatcher,
    told: Dispatcher,
    commands: Seq<Command>,
)
    requires
        before.is_own(),
        is_clean(message_id@),
        cutoff_ts <= i64::MAX,
        performed(d, Action::PruneAckStore { cutoff_ts }, env, d1, before, storage, pruned),
        pruned is Done && pruned->result is Ok,
        performed(d1, Action::CheckAckInDb { message_id }, env, d2, storage, later, outcome),
        outcome is Done && outcome->result is Ok && outcome->reply is Some,
        resumed(waiting, outcome->reply->0, env, told, commands),
        !waiting.nested,
    ensures
        told.follow_ups@.last() matches IncomingEvent::AckDbResult { message_id: id, is_processed }
            && id == message_id && is_processed == (before.contents().acks.contains_key(message_id@)
            && before.contents().acks[message_id@] >= cutoff_ts),
{
    acknowledgement_is_reported(
        d1,
        message_id,
        env,
        d2,
        storage,
        later,
        outcome,
        waiting,
        env,
        told,
        commands,
    );
}


/// What the messaging core has saved under a key is what it is handed when it asks for that key.
pub proof fn saved_session_is_handed_back(
    d: Dispatcher,
    saved_key: String,
    saved: Vec<u8>,
    env: Env,
    d1: Dispatcher,
    before: Storage,
    storage: Storage,
    done: Carried,
    key: String,
    d2: Dispatcher,
    later: Storage,
    outcome: Carried,
    waiting: Dispatcher,
    told: Dispatcher,
    commands: Seq<Command>,
)
    requires
        before.is_own(),
        is_clean(saved_key@) && key@ == saved_key@,
        performed(
            d,
            Action::SaveSessionToSecureStore { key: saved_key, data: saved },
            env,
            d1,
            before,
            storage,
            done,
        ),
        done is Done && done->result is Ok,
        performed(
            d1,
            Action::LoadSessionFromSecureStore { key },
            env,
            d2,
            storage,
            later,
            outcome,
        ),
        outcome is Done && outcome->result is Ok && outcome->reply is Some,
        resumed(waiting, outcome->reply->0, env, told, commands),
        !waiting.nested,
    ensures
        told.follow_ups@.len() == waiting.follow_ups@.len() + 1,
        told.follow_ups@.last() matches IncomingEvent::SessionLoaded { key: k, data: Some(v) } && k
            == key && v@ == saved@,
        forall|other: Seq<char>|
            other != key@ ==> (#[trigger] storage.contents().keys.contains_key(other)
                == before.contents().keys.contains_key(other)) && storage.contents().keys[other]
                == before.contents().keys[other],
{
    let n = waiting.follow_ups@.len() as int;
    assert(told.follow_ups@.skip(n)[0] == told.follow_ups@[n]);
}

/// What the messaging core is handed for a key is what the database holds under it: nothing where it
/// holds nothing or fails.
pub proof fn loaded_session_is_the_stored_one(
    d: Dispatcher,
    key: String,
    env: Env,
    asked: Dispatcher,
    storage: Storage,
    later: Storage,
    outcome: Carried,
    waiting: Dispatcher,
    told: Dispatcher,
    commands: Seq<Command>,
)
    requires
        storage.is_own(),
        is_clean(key@),
        performed(d, Action::LoadSessionFromSecureStore { key }, env, asked, storage, later, outcome),
        outcome is Done && outcome->reply is Some,
        resumed(waiting, outcome->reply->0, env, told, commands),
        !waiting.nested,
    ensures
        later == storage,
        told.follow_ups@.len() == waiting.follow_ups@.len() + 1,
        told.follow_ups@.last() matches IncomingEvent::SessionLoaded { key: k, data } && k == key
            && (data is Some) == (outcome->result is Ok && storage.contents().keys.contains_key(key@))
            && (data is Some ==> (data->0)@ == storage.contents().keys[key@]),
{
    let n = waiting.follow_ups@.len() as int;
    assert(told.follow_ups@.skip(n)[0] == told.follow_ups@[n]);
}

/// A record that the messaging core has stored is the last one of its table, and those of other
/// tables are not touched.
pub proof fn persisted_message_is_the_last_record(
    d: Dispatcher,
    message_json: String,
    env: Env,
    d1: Dispatcher,
    before: Storage,
    storage: Storage,
    done: Carried,
)
    requires
        before.is_own(),
        performed(d, Action::PersistMessage { message_json }, env, d1, before, storage, done),
        done is Done && done->result is Ok,
    ensures
        last_record(storage.contents().records, "msg"@) == Some(message_json@),
        forall|table: Seq<char>|
            table != "msg"@ ==> #[trigger] last_record(storage.contents().records, table)
                == last_record(before.contents().records, table),
        storage.contents().messages == before.contents().messages,
        storage.contents().keys == before.contents().keys,
{
    added_record_is_last(before.contents().records, "msg"@, message_json@);
}

/// Marking a message as delivered changes its status and nothing else of it, nor any other message.
pub proof fn only_the_status_of_a_delivered_message_changes(
    d: Dispatcher,
    message_id: String,
    env: Env,
    d1: Dispatcher,
    before: Storage,
    storage: Storage,
    done: Carried,
)
    requires
        before.is_own(),
        is_clean(message_id@),
        performed(d, Action::MarkMessageDelivered { message_id }, env, d1, before, storage, done),
        done is Done && done->result is Ok,
    ensures
        storage.contents().messages.dom() == before.contents().messages.dom(),
        before.contents().messages.contains_key(message_id@) ==> {
            let old_row = before.contents().messages[message_id@];
            let new_row = storage.contents().messages[message_id@];
            &&& (new_row.0, new_row.1, new_row.2, new_row.3) == (
                old_row.0,
                old_row.1,
                old_row.2,
                old_row.3,
            )
            &&& new_row.4 == "delivered"@
        },
        forall|id: Seq<char>|
            id != message_id@ && before.contents().messages.contains_key(id)
                ==> #[trigger] storage.contents().messages[id] == before.contents().messages[id],
        storage.contents().acks == before.contents().acks,
        storage.contents().contacts == before.contents().contacts,
{
    assert(storage.contents().messages.dom() =~= before.contents().messages.dom());
}

// ── Messages that come in ────────────────────────────────────────────────────

/// A decrypted message is stored and announced alike: under the same ID, from the same contact, with
/// the same text and time, and as one that was not sent from here.
pub proof fn stored_and_announced_agree(
    d: Dispatcher,
    contact_id: String,
    message_id: String,
    plaintext: Vec<u8>,
    decoded: Decoded,
    env: Env,
    after: Dispatcher,
    commands: Seq<Command>,
)
    requires
        dispatched(
            d,
            Action::MessageDecrypted { contact_id, message_id, plaintext, decoded },
            env,
            after,
            commands,
        ),
    ensures
        commands.len() == 2,
        commands[0] matches Command::StoreMessage(m) && m.id@ == message_id@ && m.peer_id@
            == contact_id@ && m.direction@ == "received"@ && m.timestamp_ms == env.now_ms && (
        commands[1] matches Command::Notify(BridgeEvent::NewMessage {
            peer_id,
            message_id: id,
            text,
            timestamp_ms,
        }) && peer_id@ == m.peer_id@ && id@ == m.id@ && text@ == m.text@ && timestamp_ms
            == m.timestamp_ms),
{
}

/// A message of which nothing but the plaintext came is stored with the very text that was written:
/// what the sender's client hands over as UTF-8 is read again as it was.
pub proof fn plain_text_is_read_as_written(
    d: Dispatcher,
    contact_id: String,
    message_id: String,
    text: Seq<char>,
    plaintext: Vec<u8>,
    decoded: Decoded,
    env: Env,
    after: Dispatcher,
    commands: Seq<Command>,
)
    requires
        plaintext@ == encode_utf8(text),
        !is_knst_frame(plaintext@),
        dispatched(
            d,
            Action::MessageDecrypted { contact_id, message_id, plaintext, decoded },
            env,
            after,
            commands,
        ),
    ensures
        commands[0] matches Command::StoreMessage(m) && m.text@ == text,
{
    encode_utf8_decode_utf8(text);
    encode_utf8_valid_utf8(text);
}

/// A frame is `KNST`, a version and 25 more bytes of header before its payload; what is shown of it is
/// what its payload says, and never the header.
pub proof fn frames_are_opened(header: Seq<u8>, payload: Seq<u8>, decoded: Decoded)
    requires
        header.len() == 30,
        header[0] == 'K' as u8 && header[1] == 'N' as u8 && header[2] == 'S' as u8 && header[3]
            == 'T' as u8,
    ensures
        is_knst_frame(header + payload) <==> header[4] == 1,
        header[4] == 1 && decoded is Text ==> plaintext_text(header + payload, decoded)
            == decoded->Text_0@,
        header[4] == 1 && decoded is NotText ==> plaintext_text(header + payload, decoded).len() == 0,
        header[4] == 1 && decoded is Malformed ==> plaintext_text(header + payload, decoded)
            == crate::text::lossy_text(payload),
        header[4] != 1 ==> plaintext_text(header + payload, decoded) == crate::text::lossy_text(
            header + payload,
        ),
{
    reveal_strlit("");
    assert((header + payload).skip(30) =~= payload);
}

/// A text with a marker of the clients anywhere in it is not for the user, nor is one that begins with
/// NUL or is empty; any other is.
pub proof fn control_texts_are_kept_from_the_user(before: Seq<char>, behind: Seq<char>)
    ensures
        !is_user_content(before + "__heartbeat__"@ + behind),
        !is_user_content(before + "__session_ping_"@ + behind),
        !is_user_content(seq!['\0'] + behind),
        !is_user_content(Seq::empty()),
        behind.len() > 0 && behind[0] != '\0' && !behind.contains('_') ==> is_user_content(behind),
{
    reveal_strlit("__heartbeat__");
    reveal_strlit("__session_ping_");
    let (p, q) = ("__heartbeat__"@, "__session_ping_"@);
    let s = before + p + behind;
    assert(s.subrange(before.len() as int, (before.len() + p.len()) as int) =~= p);
    assert(stands_at(s, p, before.len() as int));
    let t = before + q + behind;
    assert(t.subrange(before.len() as int, (before.len() + q.len()) as int) =~= q);
    assert(stands_at(t, q, before.len() as int));
    if !behind.contains('_') {
        if occurs_in(p, behind) {
            let i = choose|i: int| #[trigger] stands_at(behind, p, i);
            assert(behind.subrange(i, i + p.len())[0] == p[0]);
            assert(behind.contains('_'));
        }
        if occurs_in(q, behind) {
            let i = choose|i: int| #[trigger] stands_at(behind, q, i);
            assert(behind.subrange(i, i + q.len())[0] == q[0]);
            assert(behind.contains('_'));
        }
    }
}

// ── Messages that go out ─────────────────────────────────────────────────────

/// What the messaging core sends goes to the user that it names, from this user and device, and what
/// that user's core is handed is what was sent.
pub proof fn sent_message_reaches_its_recipient(
    d: Dispatcher,
    to: String,
    payload: Vec<u8>,
    message_id: String,
    content_type: u8,
    env: Env,
    after: Dispatcher,
    commands: Seq<Command>,
    header: WireHeader,
    event: IncomingEvent,
)
    requires
        dispatched(
            d,
            Action::SendEncryptedMessage { to, payload, message_id, content_type },
            env,
            after,
            commands,
        ),
        commands[0] is Send ==> received(*commands[0]->Send_0, header, event),
    ensures
        commands.len() == 1,
        commands[0] matches Command::Send(e) && e.recipient is Some && e.recipient->0@ == to@
            && e.sender is Some && e.sender->0@ == d.my_user_id@ && e.sender_device is Some
            && e.sender_device->0@ == d.my_device_id@,
        event->from@ == d.my_user_id@,
        event->MessageReceived_message_id@ == message_id@,
        event->MessageReceived_data@ == payload@,
        content_type_of(event->MessageReceived_content_type) == content_type_of(content_type),
        event->msg_num == header.message_number,
        event->otpk_id == header.one_time_prekey_id,
        header.kem_ciphertext is Some ==> event->kem_ct@ == (header.kem_ciphertext->0)@,
        header.kem_ciphertext is None ==> event->kem_ct@.len() == 0,
{
    sent_message_is_handed_on(
        *commands[0]->Send_0,
        d.my_user_id@,
        d.my_device_id@,
        to@,
        payload@,
        message_id@,
        content_type_of(content_type),
        header,
        event,
    );
}

/// A contact that is asked to drop its session, at the end of one or to heal it, is handed a control
/// message from this user.
pub proof fn request_to_reset_is_a_control_message(
    d: Dispatcher,
    contact_id: String,
    role: String,
    env: Env,
    after: Dispatcher,
    commands: Seq<Command>,
    header: WireHeader,
    event: IncomingEvent,
)
    requires
        dispatched(d, Action::SendEndSession { contact_id }, env, after, commands) || (dispatched(
            d,
            Action::SessionHealNeeded { contact_id, role },
            env,
            after,
            commands,
        ) && role@ == "Initiator"@ && !d.inited().contains(contact_id@)),
        commands[0] is Send ==> received(*commands[0]->Send_0, header, event),
    ensures
        commands.len() > 0,
        commands[0] matches Command::Send(e) && e.recipient is Some && e.recipient->0@
            == contact_id@,
        event->from@ == d.my_user_id@,
        event->is_control,
        content_type_of(event->MessageReceived_content_type) == ContentType::SessionReset,
        forall|i: int|
            0 <= i < event->MessageReceived_data@.len() ==> #[trigger] event->MessageReceived_data@[i]
                == 0,
{
}

/// A heartbeat goes to the contact that it is for, as a message of its own, and is nothing that would
/// be shown to the user there.
pub proof fn heartbeat_is_a_message_for_the_core(
    d: Dispatcher,
    contact_id: String,
    env: Env,
    after: Dispatcher,
    commands: Seq<Command>,
)
    requires
        dispatched(d, Action::SendHeartbeat { contact_id }, env, after, commands),
    ensures
        after == d,
        commands.len() == 1,
        commands[0] matches Command::Emit(IncomingEvent::OutgoingMessage {
            contact_id: c,
            message_id,
            plaintext,
            content_type,
        }) && c@ == contact_id@ && message_id@ == env.fresh_id@ && content_type == 0
            && plaintext@[0] == 0 && plaintext@.last() == 0,
{
}

// ── Sessions ─────────────────────────────────────────────────────────────────

/// The contact that a command is about, if it is about one.
pub open spec fn contact_of(c: Command) -> Option<Seq<char>> {
    match c {
        Command::LookUpPending { contact_id, .. } => Some(contact_id@),
        Command::InitWithBundle { contact_id, .. } => Some(contact_id@),
        Command::InitReceiving { contact_id, .. } => Some(contact_id@),
        Command::PopPending { contact_id, .. } => Some(contact_id@),
        Command::TakeHealPayload { contact_id } => Some(contact_id@),
        Command::FetchBundle { contact_id, .. } => Some(contact_id@),
        Command::FetchBundleInBackground { user_id } => Some(user_id@),
        Command::StoreMessage(m) => Some(m.peer_id@),
        Command::Send(e) => match e.recipient {
            Some(r) => Some(r@),
            None => None,
        },
        Command::Notify(BridgeEvent::NewMessage { peer_id, .. }) => Some(peer_id@),
        _ => None,
    }
}

/// The contact that a reply is about, if it is about one.
pub open spec fn contact_in_reply(r: Reply) -> Option<Seq<char>> {
    match r {
        Reply::Pending { contact_id, .. } => Some(contact_id@),
        Reply::Receiving { contact_id, .. } => Some(contact_id@),
        Reply::Popped { contact_id, .. } => Some(contact_id@),
        Reply::HealPayload { contact_id, .. } => Some(contact_id@),
        Reply::Bundle { contact_id, .. } => Some(contact_id@),
        _ => None,
    }
}

/// The contact that an event for the messaging core is about, if it is about one.
pub open spec fn contact_in_event(e: IncomingEvent) -> Option<Seq<char>> {
    match e {
        IncomingEvent::SessionInitCompleted { contact_id, .. } => Some(contact_id@),
        IncomingEvent::OutgoingMessage { contact_id, .. } => Some(contact_id@),
        _ => None,
    }
}

/// Setting up or healing the session with a contact is about that contact from the first step to the
/// last: so are all commands and all events that come of a reply, and no other contact counts as set
/// up because of it.
pub proof fn replies_stay_with_their_contact(
    before: Dispatcher,
    reply: Reply,
    env: Env,
    after: Dispatcher,
    commands: Seq<Command>,
)
    requires
        resumed(before, reply, env, after, commands),
        contact_in_reply(reply) is Some,
    ensures
        forall|i: int|
            0 <= i < commands.len() ==> contact_of(#[trigger] commands[i]) == contact_in_reply(
                reply,
            ),
        forall|i: int|
            before.follow_ups@.len() <= i < after.follow_ups@.len() ==> contact_in_event(
                #[trigger] after.follow_ups@[i],
            ) == contact_in_reply(reply),
        after.inited().subset_of(before.inited().insert(contact_in_reply(reply)->0)),
        after.follow_ups@.len() >= before.follow_ups@.len(),
{
    let n = before.follow_ups@.len() as int;
    assert forall|i: int| n <= i < after.follow_ups@.len() implies contact_in_event(
        #[trigger] after.follow_ups@[i],
    ) == contact_in_reply(reply) by {
        if !before.nested {
            assert(after.follow_ups@.skip(n)[i - n] == after.follow_ups@[i]);
        }
    }
}

/// An action for a contact is carried out for that contact, and changes nothing of what is known of
/// sessions.
pub proof fn actions_stay_with_their_contact(
    before: Dispatcher,
    action: Action,
    env: Env,
    after: Dispatcher,
    commands: Seq<Command>,
    contact: Seq<char>,
)
    requires
        dispatched(before, action, env, after, commands),
        match action {
            Action::InitSession { contact_id, .. } => contact_id@ == contact,
            Action::MessageDecrypted { contact_id, .. } => contact_id@ == contact,
            Action::SessionHealNeeded { contact_id, .. } => contact_id@ == contact,
            Action::FetchPublicKeyBundle { user_id } => user_id@ == contact,
            Action::SendEncryptedMessage { to, .. } => to@ == contact,
            Action::SendEndSession { contact_id } => contact_id@ == contact,
            Action::NotifyNewMessage { chat_id, .. } => chat_id@ == contact,
            _ => false,
        },
    ensures
        after == before,
        forall|i: int| 0 <= i < commands.len() ==> contact_of(#[trigger] commands[i]) == Some(contact),
        commands.len() == 0 ==> action is SessionHealNeeded && before.inited().contains(contact),
{
}

/// A session is set up as responder exactly where the peer has spoken first, and then with its first
/// message; otherwise with the bundle alone, and the core is told at once.
pub proof fn peer_that_speaks_first_is_answered(
    before: Dispatcher,
    contact_id: String,
    bundle_json: String,
    count: usize,
    wire: Option<Vec<u8>>,
    env: Env,
    after: Dispatcher,
    commands: Seq<Command>,
)
    requires
        resumed(before, Reply::Pending { contact_id, bundle_json, count, wire }, env, after, commands),
    ensures
        commands.len() == 1,
        commands[0] is InitReceiving <==> count > 0 && wire is Some,
        match commands[0] {
            Command::InitReceiving { contact_id: c, bundle_json: b, wire: w, healing } => {
                &&& c@ == contact_id@ && b@ == bundle_json@ && w@ == (wire->0)@
                &&& !healing
                &&& after == before
            },
            Command::InitWithBundle { contact_id: c, bundle_json: b } => {
                &&& c@ == contact_id@ && b@ == bundle_json@
                &&& count == 0 ==> after.inited().contains(contact_id@)
                &&& !before.nested ==> after.follow_ups@.last() is SessionInitCompleted
            },
            _ => false,
        },
{
    let n = before.follow_ups@.len() as int;
    if !before.nested && !(count > 0 && wire is Some) {
        assert(after.follow_ups@.skip(n)[0] == after.follow_ups@[n]);
    }
}

/// Who began a session heals it: the initiator asks the contact to drop its own and starts again from
/// a new bundle, and anyone else waits for what the contact sent and sends nothing.
pub proof fn healing_goes_by_the_role(
    before: Dispatcher,
    contact_id: String,
    role: String,
    env: Env,
    after: Dispatcher,
    commands: Seq<Command>,
)
    requires
        dispatched(before, Action::SessionHealNeeded { contact_id, role }, env, after, commands),
        !before.inited().contains(contact_id@),
    ensures
        role@ == "Initiator"@ <==> commands[0] is Send,
        role@ == "Initiator"@ ==> commands.len() == 2 && commands[1] is FetchBundle
            && commands[1]->FetchBundle_wire is None,
        role@ != "Initiator"@ ==> commands.len() == 1 && commands[0] is TakeHealPayload,
{
}

/// As initiator a session is healed with the bundle that was fetched, and the contact is then sent a
/// ping so that it answers.
pub proof fn initiator_starts_again(
    before: Dispatcher,
    contact_id: String,
    bundle_json: String,
    env: Env,
    after: Dispatcher,
    commands: Seq<Command>,
)
    requires
        resumed(
            before,
            Reply::Bundle { contact_id, wire: None, bundle_json: Some(bundle_json) },
            env,
            after,
            commands,
        ),
    ensures
        commands.len() == 1,
        commands[0] matches Command::InitWithBundle { contact_id: c, bundle_json: b } && c@
            == contact_id@ && b@ == bundle_json@,
        !before.nested ==> {
            let n = before.follow_ups@.len() as int;
            &&& after.follow_ups@.len() == n + 2
            &&& after.follow_ups@[n] is SessionInitCompleted
            &&& after.follow_ups@[n + 1] matches IncomingEvent::OutgoingMessage {
                contact_id: c,
                message_id,
                plaintext,
                ..
            }
            &&& c@ == contact_id@ && message_id@ == env.fresh_id@
            &&& plaintext@.len() == 6 && plaintext@[0] == 0 && plaintext@[5] == 0
            &&& plaintext@[1] == 'P' as u8 && plaintext@[2] == 'I' as u8 && plaintext@[3] == 'N' as u8
                && plaintext@[4] == 'G' as u8
        },
{
    let n = before.follow_ups@.len() as int;
    if !before.nested {
        assert(after.follow_ups@.skip(n)[0] == after.follow_ups@[n]);
        assert(after.follow_ups@.skip(n)[1] == after.follow_ups@[n + 1]);
    }
}

/// As responder a session is healed with the message that the contact sent: it goes through all steps
/// as it is, together with the bundle that was fetched for it, and its plaintext is what is taken out
/// of the queue. Where that fails, the contact is asked to drop its session.
pub proof fn responder_heals_with_the_message_of_the_contact(
    d0: Dispatcher,
    contact_id: String,
    wire: Vec<u8>,
    env: Env,
    d1: Dispatcher,
    fetch: Seq<Command>,
    contact_fetched: String,
    wire_fetched: Option<Vec<u8>>,
    bundle_json: String,
    d2: Dispatcher,
    init: Seq<Command>,
    contact_inited: String,
    healing: bool,
    plaintext: Option<Vec<u8>>,
    d3: Dispatcher,
    last: Seq<Command>,
)
    requires
        resumed(d0, Reply::HealPayload { contact_id, wire: Some(wire) }, env, d1, fetch),
        fetch[0] matches Command::FetchBundle { contact_id: c, wire: w } ==> c == contact_fetched
            && w == wire_fetched,
        resumed(
            d1,
            Reply::Bundle {
                contact_id: contact_fetched,
                wire: wire_fetched,
                bundle_json: Some(bundle_json),
            },
            env,
            d2,
            init,
        ),
        init[0] matches Command::InitReceiving { contact_id: c, healing: h, .. } ==> c
            == contact_inited && h == healing,
        resumed(
            d2,
            Reply::Receiving { contact_id: contact_inited, healing, plaintext },
            env,
            d3,
            last,
        ),
    ensures
        fetch.len() == 1 && fetch[0] is FetchBundle,
        init.len() == 1,
        init[0] matches Command::InitReceiving { contact_id: c, bundle_json: b, wire: w, healing: h }
            && c@ == contact_id@ && b@ == bundle_json@ && w@ == wire@ && h,
        last.len() == 1,
        match plaintext {
            Some(p) => last[0] matches Command::PopPending { contact_id: c, plaintext: q, healing: h }
                && c@ == contact_id@ && q@ == p@ && h,
            None => asks_for_reset(
                last[0],
                d2,
                contact_id@,
                env.fresh_id@,
                Seq::new(16, |i: int| 0u8),
            ),
        },
{
}

/// A message that was queued before there was a session is stored and announced under its own ID, and
/// as all other messages are; it counts for the session of this cycle unless one was healed.
pub proof fn queued_message_keeps_its_id(
    before: Dispatcher,
    contact_id: String,
    healing: bool,
    message_id: String,
    text: Seq<char>,
    plaintext: Vec<u8>,
    decoded: Decoded,
    env: Env,
    after: Dispatcher,
    commands: Seq<Command>,
)
    requires
        plaintext@ == encode_utf8(text),
        !is_knst_frame(plaintext@),
        is_user_content(text),
        resumed(
            before,
            Reply::Popped { contact_id, healing, message_id: Some(message_id), plaintext, decoded },
            env,
            after,
            commands,
        ),
    ensures
        commands.len() == 2,
        commands[0] matches Command::StoreMessage(m) && m.id@ == message_id@ && m.peer_id@
            == contact_id@ && m.text@ == text && m.direction@ == "received"@ && m.timestamp_ms
            == env.now_ms && (commands[1] matches Command::Notify(BridgeEvent::NewMessage {
            peer_id,
            message_id: id,
            text: t,
            timestamp_ms,
        }) && peer_id@ == m.peer_id@ && id@ == m.id@ && t@ == m.text@ && timestamp_ms
            == m.timestamp_ms),
        !healing ==> after.inited().contains(contact_id@),
        healing ==> after.inited() == before.inited(),
{
    encode_utf8_decode_utf8(text);
    encode_utf8_valid_utf8(text);
}

// ── Timers and notices ───────────────────────────────────────────────────────

/// A timer that was scheduled is stopped when it is cancelled, once; others run on.
pub proof fn scheduled_timer_is_cancelled_once(
    d0: Dispatcher,
    timer_id: String,
    delay_ms: u64,
    env: Env,
    d1: Dispatcher,
    started: Seq<Command>,
    cancelled_id: String,
    d2: Dispatcher,
    stopped: Seq<Command>,
    again_id: String,
    d3: Dispatcher,
    again: Seq<Command>,
)
    requires
        cancelled_id@ == timer_id@ && again_id@ == timer_id@,
        dispatched(d0, Action::ScheduleTimer { timer_id, delay_ms }, env, d1, started),
        dispatched(d1, Action::CancelTimer { timer_id: cancelled_id }, env, d2, stopped),
        dispatched(d2, Action::CancelTimer { timer_id: again_id }, env, d3, again),
    ensures
        started.len() == 1,
        started[0] matches Command::StartTimer { timer_id: t, delay_ms: ms } && t@ == timer_id@ && ms
            == delay_ms,
        stopped.len() == 1,
        stopped[0] matches Command::AbortTimer { timer_id: t } && t@ == timer_id@,
        again.len() == 0,
        forall|other: Seq<char>|
            other != timer_id@ ==> #[trigger] d3.known_timers().contains(other)
                == d0.known_timers().contains(other),
{
}

/// What the messaging core has for the user reaches the interface: the text and the sender of a
/// message, and the code and the words of an error. A pause before healing is as long as the core
/// asks for.
pub proof fn notices_carry_their_words(
    d: Dispatcher,
    env: Env,
    chat_id: String,
    preview: String,
    d1: Dispatcher,
    news: Seq<Command>,
    code: String,
    message: String,
    d2: Dispatcher,
    error: Seq<Command>,
    contact_id: String,
    retry_after_ms: u64,
    d3: Dispatcher,
    pause: Seq<Command>,
)
    requires
        dispatched(d, Action::NotifyNewMessage { chat_id, preview }, env, d1, news),
        dispatched(d, Action::NotifyError { code, message }, env, d2, error),
        dispatched(d, Action::HealSuppressed { contact_id, retry_after_ms }, env, d3, pause),
    ensures
        news.len() == 1,
        news[0] matches Command::Notify(BridgeEvent::NewMessage { peer_id, text, .. }) && peer_id@
            == chat_id@ && text@ == preview@,
        error.len() == 1,
        error[0] matches Command::Notify(BridgeEvent::Error(words)) && occurs_in(code@, words@)
            && occurs_in(message@, words@),
        pause.len() == 1,
        pause[0] matches Command::RelaunchAfter { delay_ms } && delay_ms == retry_after_ms,
{
    reveal_strlit("[");
    reveal_strlit("] ");
    let words = error[0]->Notify_0->Error_0@;
    let n = code@.len() as int;
    assert(words.subrange(1, 1 + n) =~= code@);
    assert(stands_at(words, code@, 1));
    assert(words.subrange(n + 3, n + 3 + message@.len()) =~= message@);
    assert(stands_at(words, message@, n + 3));
}

/// A bundle that the messaging core asks for is fetched for the user that it names, and it is told of it
/// under that user's ID; what it is handed is the bundle, or nothing where there is none.
pub proof fn bundle_is_that_of_the_user(
    d: Dispatcher,
    user_id: String,
    env: Env,
    after: Dispatcher,
    commands: Seq<Command>,
    bundle_json: Option<String>,
    event: IncomingEvent,
)
    requires
        dispatched(d, Action::FetchPublicKeyBundle { user_id }, env, after, commands),
        commands[0] matches Command::FetchBundleInBackground { user_id: asked } ==> reports_bundle(
            event,
            asked,
            bundle_json,
        ),
    ensures
        after == d,
        commands.len() == 1,
        event matches IncomingEvent::KeyBundleFetched { user_id: told, bundle_json: json } && told@
            == user_id@ && (bundle_json matches Some(b) ==> json@ == b@) && (bundle_json is None
            ==> json@.len() == 0),
{
}

/// What the messaging core only reports to itself changes nothing and asks for nothing.
pub proof fn silent_actions_do_nothing(
    d: Dispatcher,
    action: Action,
    env: Env,
    after: Dispatcher,
    commands: Seq<Command>,
)
    requires
        action is DecryptMessage || action is EncryptMessage || action is ApplyPQContribution
            || action is ArchiveSession || action is CallSignalDecrypted || action
            is NotifyLinkedDevicesOfSessionReset || action is SendReceipt || action
            is NotifySessionCreated || action is SessionTerminated,
        dispatched(d, action, env, after, commands),
    ensures
        after == d,
        commands.len() == 0,
{
}

/// What the stream reports reaches the messaging core: whose message was delivered, and that there is a
/// connection again. Where it is lost, or a message cannot be read, the core is told nothing.
pub proof fn stream_events_reach_the_core(
    event: StreamEvent,
    header: Option<WireHeader>,
    handed: Option<IncomingEvent>,
)
    requires
        handed_on(event, header, handed),
    ensures
        event matches StreamEvent::Ack(id) ==> (handed matches Some(IncomingEvent::AckReceived {
            message_id,
        }) && message_id@ == id@),
        event is Connected <==> handed == Some(IncomingEvent::NetworkReconnected),
        event is Disconnected ==> handed is None,
        event is Message ==> (handed is Some <==> header is Some),
        event is Message && handed is Some ==> handed->0 is MessageReceived,
{
}

/// An answer stays in the conversation: what two users send each other goes under the same
/// conversation, whoever of them writes.
pub proof fn answers_stay_in_the_conversation(
    a: Dispatcher,
    b: Dispatcher,
    to_b: String,
    to_a: String,
    payload: Vec<u8>,
    message_id: String,
    content_type: u8,
    env: Env,
    a1: Dispatcher,
    sent: Seq<Command>,
    b1: Dispatcher,
    answered: Seq<Command>,
)
    requires
        to_b@ == b.my_user_id@ && to_a@ == a.my_user_id@,
        dispatched(
            a,
            Action::SendEncryptedMessage { to: to_b, payload, message_id, content_type },
            env,
            a1,
            sent,
        ),
        dispatched(
            b,
            Action::SendEncryptedMessage { to: to_a, payload, message_id, content_type },
            env,
            b1,
            answered,
        ),
    ensures
        sent[0] matches Command::Send(x) && (answered[0] matches Command::Send(y)
            && x.conversation_id@ == y.conversation_id@ && x.sender->0@ == y.recipient->0@
            && x.recipient->0@ == y.sender->0@),
{
    direct_conversation_is_symmetric(a.my_user_id@, b.my_user_id@);
}

} // verus!
