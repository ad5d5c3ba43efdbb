//! The conversation: what is shown live and what is shown from the database agree.

use vstd::prelude::*;
use vstd::utf8::*;

use crate::app::{
    on_internal, on_key, on_reply, served, App, Effect, Focus, Fresh, InternalEvent, Reply, Served,
};
use crate::bridge::{received_row, sent_row, BridgeEvent};
use crate::clock::{hhmm, message_time_text};
use crate::keys::{KeyCode, KeyEvent};
use crate::orchestrator_task::{
    dispatched, is_knst_frame, Action, Command, Decoded, Dispatcher, Env, IncomingEvent,
};
use crate::screens::chat_view::{
    message_line, message_lines, ChatMessage, ChatViewPane, MessageKind,
};
use crate::storage::{has_entry, is_clean, stored_messages, Storage, StoredMessage};
use crate::text::trimmed;

verus! {

// ── Live and loaded ──────────────────────────────────────────────────────────

/// A message that was sent from here is shown alike live and after it was loaded again: as sent, with
/// its text.
pub proof fn sent_message_is_shown_alike_when_loaded(
    a0: App,
    enter: KeyEvent,
    fresh: Fresh,
    a1: App,
    e1: Seq<Effect>,
    peer_id: Seq<char>,
    timestamp_ms: i64,
    history: Vec<StoredMessage>,
    i: int,
    b0: App,
    b1: App,
    f1: Seq<Effect>,
)
    requires
        a0.screen is Main && a0.focus == Focus::Compose && a0.delete_confirm is None,
        enter.pressed && enter.code == KeyCode::Enter,
        trimmed(a0.chat_view.compose@).len() > 0,
        on_key(a0, enter, fresh, a1, e1),
        0 <= i < history@.len(),
        history@[i].id@ == fresh.message_id@,
        history@[i].row() == sent_row(peer_id, a0.chat_view.compose@, timestamp_ms),
        on_reply(b0, Reply::HistoryLoaded(Some(history)), b1, f1),
    ensures
        ({
            let live = a1.chat_view.messages@.last();
            let loaded = b1.chat_view.messages@[b0.chat_view.messages@.len() + i];
            &&& a1.chat_view.messages@.len() == a0.chat_view.messages@.len() + 1
            &&& b1.chat_view.messages@.len() == b0.chat_view.messages@.len() + history@.len()
            &&& live.kind == MessageKind::Sent
            &&& loaded.kind == live.kind
            &&& loaded.id@ == live.id@
            &&& loaded.text@ == live.text@
            &&& live.text@ == a0.chat_view.compose@
        }),
{
    let n = b0.chat_view.messages@.len() as int;
    assert(b1.chat_view.messages@.skip(n)[i] == b1.chat_view.messages@[n + i]);
}

/// A message that was received is shown alike live and after it was loaded again: as received, with
/// its text; and that is another kind than the one of a message that was sent.
pub proof fn received_message_is_shown_alike_when_loaded(
    a0: App,
    evt: BridgeEvent,
    fresh: Fresh,
    a1: App,
    e1: Seq<Effect>,
    history: Vec<StoredMessage>,
    i: int,
    b0: App,
    b1: App,
    f1: Seq<Effect>,
)
    requires
        evt is NewMessage,
        on_internal(a0, InternalEvent::Bridge(evt), fresh, a1, e1),
        0 <= i < history@.len(),
        history@[i].row() == received_row(evt->peer_id@, evt->text@, evt->timestamp_ms),
        on_reply(b0, Reply::HistoryLoaded(Some(history)), b1, f1),
    ensures
        ({
            let live = a1.chat_view.messages@.last();
            let loaded = b1.chat_view.messages@[b0.chat_view.messages@.len() + i];
            &&& a1.chat_view.messages@.len() == a0.chat_view.messages@.len() + 1
            &&& b1.chat_view.messages@.len() == b0.chat_view.messages@.len() + history@.len()
            &&& live.kind == MessageKind::Received
            &&& live.kind != MessageKind::Sent
            &&& loaded.kind == live.kind
            &&& loaded.text@ == live.text@
            &&& live.text@ == evt->text@
        }),
{
    reveal_strlit("received");
    reveal_strlit("sent");
    assert("received"@.len() != "sent"@.len());
    let n = b0.chat_view.messages@.len() as int;
    assert(b1.chat_view.messages@.skip(n)[i] == b1.chat_view.messages@[n + i]);
}

/// A message that the messaging core has decrypted is shown alike when it is announced and when what
/// was stored of it is loaded: as received, with the same text.
pub proof fn decrypted_message_is_shown_alike_when_loaded(
    d: Dispatcher,
    contact_id: String,
    message_id: String,
    plaintext: Vec<u8>,
    decoded: Decoded,
    env: Env,
    d1: Dispatcher,
    commands: Seq<Command>,
    a0: App,
    fresh: Fresh,
    a1: App,
    e1: Seq<Effect>,
    history: Vec<StoredMessage>,
    i: int,
    b0: App,
    b1: App,
    f1: Seq<Effect>,
)
    requires
        dispatched(
            d,
            Action::MessageDecrypted { contact_id, message_id, plaintext, decoded },
            env,
            d1,
            commands,
        ),
        commands[1] matches Command::Notify(evt) ==> on_internal(
            a0,
            InternalEvent::Bridge(evt),
            fresh,
            a1,
            e1,
        ),
        0 <= i < history@.len(),
        commands[0] matches Command::StoreMessage(m) ==> history@[i].id@ == m.id@
            && history@[i].row() == m.row(),
        on_reply(b0, Reply::HistoryLoaded(Some(history)), b1, f1),
    ensures
        ({
            let live = a1.chat_view.messages@.last();
            let loaded = b1.chat_view.messages@[b0.chat_view.messages@.len() + i];
            &&& a1.chat_view.messages@.len() == a0.chat_view.messages@.len() + 1
            &&& live.kind == MessageKind::Received
            &&& loaded.kind == live.kind
            &&& loaded.text@ == live.text@
            &&& loaded.id@ == message_id@
        }),
{
    reveal_strlit("received");
    reveal_strlit("sent");
    assert("received"@.len() != "sent"@.len());
    let n = b0.chat_view.messages@.len() as int;
    assert(b1.chat_view.messages@.skip(n)[i] == b1.chat_view.messages@[n + i]);
}

/// The messages of a conversation that is loaded come behind what is shown, all of them, in their
/// order; each has the ID and the text that were stored, and is shown as sent exactly where it was
/// stored as sent.
pub proof fn loaded_messages_are_shown(
    before: App,
    history: Vec<StoredMessage>,
    after: App,
    effects: Seq<Effect>,
)
    requires
        on_reply(before, Reply::HistoryLoaded(Some(history)), after, effects),
    ensures
        effects.len() == 0,
        after.chat_view.contact_name == before.chat_view.contact_name,
        after.chat_view.compose == before.chat_view.compose,
        after.chat_view.messages@.len() == before.chat_view.messages@.len() + history@.len(),
        forall|i: int|
            0 <= i < before.chat_view.messages@.len() ==> #[trigger] after.chat_view.messages@[i]
                == before.chat_view.messages@[i],
        forall|i: int|
            0 <= i < history@.len() ==> {
                let m = after.chat_view.messages@[before.chat_view.messages@.len() + i];
                &&& m.id@ == (#[trigger] history@[i]).id@
                &&& m.text@ == history@[i].text@
                &&& (m.kind == MessageKind::Sent <==> history@[i].direction@ == "sent"@)
                &&& m.time@ == message_time_text(history@[i].timestamp_ms)
            },
{
    let n = before.chat_view.messages@.len() as int;
    assert forall|i: int| 0 <= i < n implies #[trigger] after.chat_view.messages@[i]
        == before.chat_view.messages@[i] by {
        assert(after.chat_view.messages@.take(n)[i] == after.chat_view.messages@[i]);
    }
    assert forall|i: int| 0 <= i < history@.len() implies {
        let m = after.chat_view.messages@[n + i];
        &&& m.id@ == (#[trigger] history@[i]).id@
        &&& m.text@ == history@[i].text@
        &&& (m.kind == MessageKind::Sent <==> history@[i].direction@ == "sent"@)
        &&& m.time@ == message_time_text(history@[i].timestamp_ms)
    } by {
        assert(after.chat_view.messages@.skip(n)[i] == after.chat_view.messages@[n + i]);
    }
}

/// The time of day that is shown live is the one that is shown of a message with that time.
pub proof fn times_agree(fresh: Fresh, timestamp_ms: i64)
    requires
        timestamp_ms >= 0,
        timestamp_ms / 1000 == fresh.unix_secs,
    ensures
        fresh.time() == message_time_text(timestamp_ms),
        fresh.time() == hhmm(
            (fresh.unix_secs / 3600 % 24) as nat,
            (fresh.unix_secs / 60 % 60) as nat,
        ),
{
    let s = fresh.unix_secs as int;
    assert(s % 86400 / 3600 == s / 3600 % 24);
    assert(s % 3600 / 60 == s / 60 % 60);
}

// ── From writing to reading ──────────────────────────────────────────────────

/// What is written is what is sent, shown and handed to the messaging core, under one ID, and the box
/// is empty then. Where the messaging core of the contact decrypts these bytes, the text that is shown
/// there is the one that was written.
pub proof fn written_text_is_read_by_the_contact(
    a0: App,
    enter: KeyEvent,
    fresh: Fresh,
    a1: App,
    e1: Seq<Effect>,
    d: Dispatcher,
    contact_id: String,
    message_id: String,
    plaintext: Vec<u8>,
    decoded: Decoded,
    env: Env,
    d1: Dispatcher,
    commands: Seq<Command>,
    b0: App,
    fresh_there: Fresh,
    b1: App,
    f1: Seq<Effect>,
)
    requires
        a0.screen is Main && a0.focus == Focus::Compose && a0.delete_confirm is None,
        a0.has_orchestrator && a0.chat_list.chosen() is Some,
        enter.pressed && enter.code == KeyCode::Enter,
        trimmed(a0.chat_view.compose@).len() > 0,
        on_key(a0, enter, fresh, a1, e1),
        e1[0] matches Effect::ToCore(IncomingEvent::OutgoingMessage { plaintext: sent, .. })
            ==> plaintext@ == sent@,
        !is_knst_frame(plaintext@),
        dispatched(
            d,
            Action::MessageDecrypted { contact_id, message_id, plaintext, decoded },
            env,
            d1,
            commands,
        ),
        commands[1] matches Command::Notify(evt) ==> on_internal(
            b0,
            InternalEvent::Bridge(evt),
            fresh_there,
            b1,
            f1,
        ),
    ensures
        e1.len() == 1,
        e1[0] matches Effect::ToCore(IncomingEvent::OutgoingMessage { message_id: id, .. }) && id@
            == a1.chat_view.messages@.last().id@ && id@ == fresh.message_id@,
        a1.chat_view.compose@.len() == 0,
        a1.chat_view.messages@.last().text@ == a0.chat_view.compose@,
        b1.chat_view.messages@.last().text@ == a0.chat_view.compose@,
        b1.chat_view.messages@.last().kind != a1.chat_view.messages@.last().kind,
{
    reveal_strlit("");
    encode_utf8_decode_utf8(a0.chat_view.compose@);
    encode_utf8_valid_utf8(a0.chat_view.compose@);
}

/// Blank text is neither sent nor shown, and nothing is handed to the messaging core where there is
/// none or where no contact is chosen.
pub proof fn blank_text_is_not_sent(
    before: App,
    enter: KeyEvent,
    fresh: Fresh,
    after: App,
    effects: Seq<Effect>,
)
    requires
        before.screen is Main && before.focus == Focus::Compose && before.delete_confirm is None,
        enter.pressed && enter.code == KeyCode::Enter,
        on_key(before, enter, fresh, after, effects),
    ensures
        effects.len() == 1 <==> (before.has_orchestrator && before.chat_list.chosen() is Some
            && trimmed(before.chat_view.compose@).len() > 0),
        effects.len() <= 1,
        trimmed(before.chat_view.compose@).len() == 0 ==> after.chat_view.messages
            == before.chat_view.messages,
        after.chat_view.compose@.len() == 0,
{
    reveal_strlit("");
}

/// The key that deletes undoes the one that was typed before.
pub proof fn typing_is_undone(
    a0: App,
    typed: KeyEvent,
    c: char,
    erase: KeyEvent,
    fresh: Fresh,
    a1: App,
    e1: Seq<Effect>,
    a2: App,
    e2: Seq<Effect>,
)
    requires
        a0.screen is Main && a0.focus == Focus::Compose && a0.delete_confirm is None,
        typed.pressed && typed.code == KeyCode::Char(c) && !crate::keys::is_interrupt(typed),
        erase.pressed && erase.code == KeyCode::Backspace,
        on_key(a0, typed, fresh, a1, e1),
        on_key(a1, erase, fresh, a2, e2),
    ensures
        a1.chat_view.compose@ == a0.chat_view.compose@.push(c),
        a2.chat_view.compose@ == a0.chat_view.compose@,
        a2.chat_view.messages == a0.chat_view.messages,
        e1.len() == 0 && e2.len() == 0,
{
    assert(a0.chat_view.compose@.push(c).drop_last() =~= a0.chat_view.compose@);
}

// ── What is seen ─────────────────────────────────────────────────────────────

/// The row of a message holds its text, word for word, and its time; which way the message went is
/// seen by the order of the two.
pub proof fn row_tells_text_time_and_way(m: ChatMessage)
    ensures
        exists|i: int| 0 <= i < message_line(m).len() && (#[trigger] message_line(m)[i]).text == m.text@,
        m.kind == MessageKind::Received ==> message_line(m)[0].text == "["@ + m.time@ + "] "@
            && message_line(m).last().text == m.text@,
        m.kind == MessageKind::Sent ==> message_line(m).last().text == "["@ + m.time@ + "] "@,
{
    if m.kind == MessageKind::Sent {
        assert(message_line(m)[1].text == m.text@);
    } else {
        assert(message_line(m)[1].text == m.text@);
    }
}

/// The rows on the screen are the messages of the conversation, in their order and no more than fit;
/// with nothing skipped the latest message is the last row.
pub proof fn latest_message_is_the_last_row(p: ChatViewPane, height: nat)
    requires
        p.messages@.len() > 0,
        height > 0,
        p.scroll_offset == 0,
    ensures
        message_lines(p, height).len() == if p.messages@.len() < height {
            p.messages@.len()
        } else {
            height
        },
        message_lines(p, height).last() == message_line(p.messages@.last()),
        forall|i: int|
            0 <= i < message_lines(p, height).len() ==> #[trigger] message_lines(p, height)[i]
                == message_line(
                p.messages@[p.messages@.len() - message_lines(p, height).len() + i],
            ),
{
}

// ── What is stored ───────────────────────────────────────────────────────────

/// What is stored of a message is who it is with, its text and its time, whichever way it went; which
/// way that was is stored too, and a message that came in needs no acknowledgement.
pub proof fn stored_rows_keep_what_was_said(
    peer_id: Seq<char>,
    text: Seq<char>,
    timestamp_ms: i64,
    sent: StoredMessage,
    received: StoredMessage,
)
    requires
        sent.row() == sent_row(peer_id, text, timestamp_ms),
        received.row() == received_row(peer_id, text, timestamp_ms),
    ensures
        sent.peer_id@ == peer_id && received.peer_id@ == peer_id,
        sent.text@ == text && received.text@ == text,
        sent.timestamp_ms == timestamp_ms && received.timestamp_ms == timestamp_ms,
        sent.direction@ == "sent"@ && received.direction@ == "received"@,
        sent.direction@ != received.direction@,
        sent.delivery_status@ == ""@ && received.delivery_status@ == "delivered"@,
{
    reveal_strlit("received");
    reveal_strlit("sent");
    assert("received"@.len() != "sent"@.len());
}

/// A message of the database is shown when its conversation is loaded, with its text and its time, as
/// sent exactly where it is stored as sent, unless there are as many later ones as are loaded.
pub proof fn stored_message_is_shown(
    storage: Storage,
    later: Storage,
    peer_id: String,
    limit: usize,
    outcome: Served,
    id: Seq<char>,
    before: App,
    after: App,
    effects: Seq<Effect>,
)
    requires
        storage.is_own(),
        is_clean(peer_id@),
        limit <= 0x7fff_ffff,
        storage.contents().messages.contains_key(id),
        storage.contents().messages[id].0 == peer_id@,
        served(storage, Effect::LoadHistory { peer_id, limit }, later, outcome),
        outcome matches Served::Done { result, .. } && result is Ok,
        outcome->reply is Some,
        on_reply(before, outcome->reply->0, after, effects),
        after.chat_view.messages@.len() < before.chat_view.messages@.len() + limit,
    ensures
        exists|i: int|
            before.chat_view.messages@.len() <= i < after.chat_view.messages@.len() && {
                let m = #[trigger] after.chat_view.messages@[i];
                let row = storage.contents().messages[id];
                &&& m.id@ == id
                &&& m.text@ == row.1
                &&& (m.kind == MessageKind::Sent <==> row.2 == "sent"@)
                &&& m.time@ == message_time_text(row.3)
            },
{
    let h = (outcome->reply->0)->HistoryLoaded_0->0;
    let stored = stored_messages(h@);
    let entries = stored.reverse();
    loaded_messages_are_shown(before, h, after, effects);
    assert(has_entry(entries, id));
    let i = choose|i: int| 0 <= i < entries.len() && (#[trigger] entries[i]).0 == id;
    assert(entries[i].1 == storage.contents().messages[id]);
    let j = entries.len() - 1 - i;
    assert(entries[i] == stored[j]);
    assert(h@[j].id@ == id && h@[j].row() == storage.contents().messages[id]);
    let n = before.chat_view.messages@.len() as int;
    assert(after.chat_view.messages@[n + j].id@ == id);
}

} // verus!
