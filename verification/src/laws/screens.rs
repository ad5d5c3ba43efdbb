//! What keys do on the screens, and what is seen of it.

use vstd::prelude::*;
use vstd::utf8::*;

use crate::app::{
    on_cleared, on_internal, on_key, on_reply, shortcut, App, AuthMsg, Effect, Focus, Fresh,
    InternalEvent, Reply, Screen,
};
use crate::auth::RegistrationStep;
use crate::codec::{base64_bytes, hex_bytes, hex_reads_back};
use crate::draw::{centred_row, field_row, Area, Color, DrawView};
use crate::keys::{is_interrupt, KeyCode, KeyEvent, Modifiers};
use crate::screens::chat_list::{contact_lines, preview_of, Contact};
use crate::screens::connection_status::{connection_color, connection_label, ConnectionState};
use crate::screens::contact_search::{
    fitting, result_line, search_drawing, ContactSearchScreen, SearchResult,
};
use crate::screens::device_link::{link_drawing, DeviceLinkScreen};
use crate::screens::registration::{step_labels, step_mark, RegistrationScreen};
use crate::screens::safety_number::safety_number_is_the_same_for_both;
use crate::screens::settings::{item_line, SettingsAction, SettingsItem, SettingsScreen};
use crate::text::{bytes_hex, occurs_in, stands_at, trimmed};
use crate::view::{main_drawing, middle_of, shows_main, MainPlaces};

verus! {

// ── Settings ─────────────────────────────────────────────────────────────────

/// The letter in the brackets of a row does what the row does: so does Enter on that row, and rows
/// that only show something do nothing.
pub proof fn letters_do_what_the_rows_say(
    s: SettingsScreen,
    server: Seq<char>,
    transport: Seq<char>,
    device_id: Seq<char>,
    user_id: Seq<char>,
    pq_active: bool,
)
    requires
        s.shows(server, transport, device_id, user_id, pq_active),
    ensures
        s.items@[6].label@[1] == 'S' && s.items@[7].label@[1] == 'E' && s.items@[8].label@[1] == 'L',
        forall|i: int|
            6 <= i < 9 ==> shortcut(s, KeyCode::Char((#[trigger] s.items@[i]).label@[1]))
                == s.items@[i].action && s.items@[i].action is Some,
        shortcut(s, KeyCode::Char('s')) == s.items@[6].action,
        shortcut(s, KeyCode::Char('e')) == s.items@[7].action,
        shortcut(s, KeyCode::Char('l')) == s.items@[8].action,
        shortcut(s, KeyCode::Esc) == s.items@[9].action && s.items@[9].action == Some(
            SettingsAction::Back,
        ),
        s.items@[6].action == Some(SettingsAction::ShowSafetyNumber),
        s.items@[7].action == Some(SettingsAction::ExportKeys),
        s.items@[8].action == Some(SettingsAction::Logout),
        forall|i: int|
            0 <= i < 10 && s.selected == Some(i as usize) ==> shortcut(s, KeyCode::Enter) == (
            #[trigger] s.items@[i]).action,
        s.selected is Some && s.selected->0 < 6 ==> shortcut(s, KeyCode::Enter) is None,
        s.items@[0].value@ == server && s.items@[1].value@ == transport && s.items@[2].value@
            == device_id && s.items@[3].value@ == user_id,
{
    reveal_strlit("[S] Safety number");
    reveal_strlit("[E] Export keys");
    reveal_strlit("[L] Logout");
    assert(s.items@[6].label@[1] == 'S');
    assert(s.items@[7].label@[1] == 'E');
    assert(s.items@[8].label@[1] == 'L');
}

/// Going up undoes going down in the settings, and neither leaves the ten rows.
pub proof fn settings_keys_undo_each_other(
    a0: App,
    down: KeyEvent,
    up: KeyEvent,
    fresh: Fresh,
    a1: App,
    e1: Seq<Effect>,
    a2: App,
    e2: Seq<Effect>,
)
    requires
        a0.wf(),
        a0.screen is Settings,
        a0.settings_screen.selected is Some,
        down.pressed && (down.code == KeyCode::Down || down.code == KeyCode::Char('j'))
            && !is_interrupt(down),
        up.pressed && (up.code == KeyCode::Up || up.code == KeyCode::Char('k')) && !is_interrupt(up),
        on_key(a0, down, fresh, a1, e1),
        on_key(a1, up, fresh, a2, e2),
    ensures
        a1.settings_screen.selected is Some && a1.settings_screen.selected->0 <= 9,
        a0.settings_screen.selected->0 < 9 ==> a1.settings_screen.selected->0
            == a0.settings_screen.selected->0 + 1 && a2 == a0,
        a0.settings_screen.selected->0 == 9 ==> a1 == a0,
        e1.len() == 0 && e2.len() == 0,
{
}

/// What is exported is the own public key, from whose hexadecimal notation the key is read again, and
/// the ID of the user.
pub proof fn exported_key_is_the_own_one(
    before: App,
    own: Vec<u8>,
    key: KeyEvent,
    fresh: Fresh,
    after: App,
    effects: Seq<Effect>,
    hex: Seq<char>,
)
    requires
        before.screen is Settings,
        before.our_identity_key == Some(own),
        key.pressed && key.code == KeyCode::Char('e') && key.modifiers == Modifiers::Plain,
        on_key(before, key, fresh, after, effects),
        hex == bytes_hex(own@),
    ensures
        after == before,
        effects.len() == 1,
        effects[0] matches Effect::ExportIdentity { contents } && contents@
            == "identity_public_key_hex="@ + hex + "\nuser_id="@ + before.user_id@ + "\n"@,
        hex_bytes(hex) == own@,
{
    hex_reads_back(own@);
}

/// Two users who hold each other's key see the same safety number, each under the name of the other.
pub proof fn both_see_the_same_safety_number(
    a0: App,
    a_key: Vec<u8>,
    b0: App,
    b_key: Vec<u8>,
    name_of_b: String,
    b64_of_b: String,
    name_of_a: String,
    b64_of_a: String,
    a1: App,
    e1: Seq<Effect>,
    b1: App,
    f1: Seq<Effect>,
)
    requires
        a0.our_identity_key == Some(a_key) && b0.our_identity_key == Some(b_key),
        b64_of_a@.len() > 0 && base64_bytes(b64_of_a@) == Some(a_key@),
        b64_of_b@.len() > 0 && base64_bytes(b64_of_b@) == Some(b_key@),
        on_reply(
            a0,
            Reply::ContactFound { contact_name: name_of_b, identity_key_b64: Some(b64_of_b) },
            a1,
            e1,
        ),
        on_reply(
            b0,
            Reply::ContactFound { contact_name: name_of_a, identity_key_b64: Some(b64_of_a) },
            b1,
            f1,
        ),
    ensures
        a1.screen is SafetyNumber && b1.screen is SafetyNumber,
        a1.safety_number is Some && b1.safety_number is Some,
        (a1.safety_number->0).number@ == (b1.safety_number->0).number@,
        (a1.safety_number->0).contact_name@ == name_of_b@,
        (b1.safety_number->0).contact_name@ == name_of_a@,
        e1.len() == 0 && f1.len() == 0,
{
    safety_number_is_the_same_for_both(crate::app::key32(a_key@), crate::app::key32(b_key@));
}

/// A key of 32 bytes is taken as it is for the safety number.
pub proof fn keys_of_32_bytes_are_kept(key: Seq<u8>)
    requires
        key.len() == 32,
    ensures
        crate::app::key32(key) == key,
{
    assert(crate::app::key32(key) =~= key);
}

/// Nothing of a user is left after logging out: whoever was signed in, two clients of the same server
/// look alike then, with no keys, no session, no tokens, no IDs and no contacts, and everything that
/// ran is stopped.
pub proof fn nothing_of_a_user_is_left(
    a0: App,
    a1: App,
    e1: Seq<Effect>,
    b0: App,
    b1: App,
    f1: Seq<Effect>,
)
    requires
        a0.server_url@ == b0.server_url@,
        a0.transport == b0.transport,
        a0.pq_active == b0.pq_active,
        on_reply(a0, Reply::SessionCleared(Ok::<(), String>(())), a1, e1),
        on_reply(b0, Reply::SessionCleared(Ok::<(), String>(())), b1, f1),
    ensures
        a1.session_key is None && a1.pending_key is None && a1.our_identity_key is None,
        a1.current_session is None && a1.pending_session is None,
        a1.user_id@.len() == 0 && a1.device_id@.len() == 0 && a1.access_token@.len() == 0,
        a1.chat_list.contacts@.len() == 0,
        a1.contact_search.query@ == b1.contact_search.query@ && a1.contact_search.results@.len() == 0,
        a1.chat_view.compose@.len() == 0 && a1.chat_view.contact_name@.len() == 0,
        a1.chat_view.messages@.len() == b1.chat_view.messages@.len(),
        forall|i: int|
            0 <= i < a1.chat_view.messages@.len() ==> (#[trigger] a1.chat_view.messages@[i]).text@
                == b1.chat_view.messages@[i].text@,
        a1.onboarding.username@ == b1.onboarding.username@,
        a1.settings_screen.user_id@ == b1.settings_screen.user_id@,
        a1.settings_screen.device_id@ == b1.settings_screen.device_id@,
        a1.connection == ConnectionState::Disconnected,
        !a1.has_orchestrator && !a1.has_stream && !a1.has_storage,
        a1.screen is Onboarding,
        exists|i: int| 0 <= i < e1.len() && (#[trigger] e1[i]) is StopCore,
        exists|i: int| 0 <= i < e1.len() && (#[trigger] e1[i]) is CloseStorage,
        a0.has_stream <==> exists|i: int| 0 <= i < e1.len() && (#[trigger] e1[i]) is ToStream,
{
    reveal_strlit("");
    assert(e1[0] is StopCore);
    assert(e1[e1.len() - 1] is CloseStorage);
    if a0.has_stream {
        assert(e1[1] is ToStream);
    }
}

/// Where the session could not be deleted, the user stays signed in and is told so.
pub proof fn failed_logout_changes_nothing(
    before: App,
    reason: String,
    after: App,
    effects: Seq<Effect>,
)
    requires
        on_cleared(before, Err::<(), String>(reason), after, effects),
    ensures
        after == (App { status: after.status, ..before }),
        after.status@ == "Logout error: "@ + reason@,
        effects.len() == 0,
{
}

// ── First run ────────────────────────────────────────────────────────────────

/// A device is registered under the name that was typed, without the space around it, and without a
/// name where there is none; then the checklist begins anew and its spinner turns.
pub proof fn registration_is_under_the_typed_name(
    before: App,
    enter: KeyEvent,
    fresh: Fresh,
    after: App,
    effects: Seq<Effect>,
)
    requires
        before.screen is Onboarding,
        enter.pressed && enter.code == KeyCode::Enter,
        on_key(before, enter, fresh, after, effects),
    ensures
        after.screen is Registering,
        after.registration.active_step == 0,
        after.ticking,
        effects[0] matches Effect::Register { username } && (username is None <==> trimmed(
            before.onboarding.username@,
        ).len() == 0) && (username matches Some(u) ==> u@ == trimmed(before.onboarding.username@)),
        effects.last() is StartTicker,
        forall|i: int|
            1 <= i < effects.len() - 1 ==> before.ticking && (#[trigger] effects[i]) is StopTicker,
{
}

/// A device is linked with the token that was typed, without the space around it; without one the user
/// is told so and nothing is asked of the server.
pub proof fn link_is_with_the_typed_token(
    before: App,
    enter: KeyEvent,
    fresh: Fresh,
    after: App,
    effects: Seq<Effect>,
)
    requires
        before.screen is DeviceLink,
        enter.pressed && enter.code == KeyCode::Enter,
        on_key(before, enter, fresh, after, effects),
    ensures
        effects.len() == 0 <==> trimmed(before.device_link.token@).len() == 0,
        effects.len() == 0 ==> after.screen is DeviceLink && after.device_link.is_error
            && after.device_link.status is Some,
        effects.len() > 0 ==> effects.len() == 1 && after.screen is Connecting && (
        effects[0] matches Effect::Link { token } && token@ == trimmed(before.device_link.token@)),
{
}

/// The key that deletes undoes the one that was typed before, in the form for a name, in the form for a
/// link token and in the field for a passphrase, as long as there is room for what is typed.
pub proof fn typing_is_undone_on_every_form(
    a0: App,
    typed: KeyEvent,
    c: char,
    erase: KeyEvent,
    fresh: Fresh,
    a1: App,
    e1: Seq<Effect>,
    a2: App,
    e2: Seq<Effect>,
)
    requires
        a0.screen is Onboarding || a0.screen is DeviceLink || a0.screen is Unlock || a0.screen
            is SetPassphrase,
        typed.pressed && typed.code == KeyCode::Char(c) && !is_interrupt(typed),
        c != 'q',
        erase.pressed && erase.code == KeyCode::Backspace,
        encode_utf8(a0.onboarding.username@).len() < 32,
        encode_utf8(a0.unlock_screen.passphrase@).len() < 128,
        on_key(a0, typed, fresh, a1, e1),
        on_key(a1, erase, fresh, a2, e2),
    ensures
        a0.screen is Onboarding ==> a1.onboarding.username@ == a0.onboarding.username@.push(c),
        a0.screen is DeviceLink ==> a1.device_link.token@ == a0.device_link.token@.push(c),
        a0.screen is Unlock || a0.screen is SetPassphrase ==> a1.unlock_screen.passphrase@
            == a0.unlock_screen.passphrase@.push(c),
        a2.onboarding.username@ == a0.onboarding.username@,
        a2.device_link.token@ == a0.device_link.token@,
        a2.unlock_screen.passphrase@ == a0.unlock_screen.passphrase@,
        e1.len() == 0 && e2.len() == 0,
{
    assert(a0.onboarding.username@.push(c).drop_last() =~= a0.onboarding.username@);
    assert(a0.device_link.token@.push(c).drop_last() =~= a0.device_link.token@);
    assert(a0.unlock_screen.passphrase@.push(c).drop_last() =~= a0.unlock_screen.passphrase@);
}

/// A registration never falls back: what is done stays done, the step that is reported is done or under
/// way, and when it is over all steps are done.
pub proof fn registration_never_falls_back(
    before: App,
    step: RegistrationStep,
    msg: AuthMsg,
    fresh: Fresh,
    after: App,
    e1: Seq<Effect>,
    over: App,
    e2: Seq<Effect>,
)
    requires
        before.registration.active_step <= 7,
        before.screen is Registering,
        on_internal(before, InternalEvent::RegistrationStep(step), fresh, after, e1),
        on_internal(before, InternalEvent::Auth(msg), fresh, over, e2),
    ensures
        after.registration.active_step >= before.registration.active_step,
        after.registration.active_step >= step.place(),
        after.registration.active_step == before.registration.active_step
            || after.registration.active_step == step.place(),
        over.registration.active_step == 7,
        !over.ticking,
        forall|i: int| 0 <= i < 7 ==> (#[trigger] step_mark(over.registration, i)).1 == Color::Green,
        before.ticking ==> e2.len() > 0 && e2[0] is StopTicker,
{
}

/// Each step is marked as done, under way or to come, and only one can be under way.
pub proof fn one_step_is_under_way(s: RegistrationScreen, i: int, j: int)
    requires
        0 <= i < j < 7,
    ensures
        step_mark(s, i).1 == Color::Cyan <==> i == s.active_step,
        step_mark(s, i).1 == Color::Green <==> i < s.active_step,
        step_mark(s, j).1 == Color::Green ==> step_mark(s, i).1 == Color::Green,
        step_mark(s, i).1 == Color::Cyan ==> step_mark(s, j).1 == Color::DarkGray,
{
}

// ── Main screen ──────────────────────────────────────────────────────────────

/// Going up undoes going down in the list of contacts; what is selected stays in the list, and with
/// these keys nothing else changes.
pub proof fn list_keys_undo_each_other(
    a0: App,
    down: KeyEvent,
    up: KeyEvent,
    fresh: Fresh,
    a1: App,
    e1: Seq<Effect>,
    a2: App,
    e2: Seq<Effect>,
)
    requires
        a0.wf(),
        a0.screen is Main && a0.focus == Focus::ContactList && a0.delete_confirm is None,
        a0.chat_list.contacts@.len() <= usize::MAX,
        down.pressed && (down.code == KeyCode::Down || down.code == KeyCode::Char('j')),
        up.pressed && (up.code == KeyCode::Up || up.code == KeyCode::Char('k')),
        on_key(a0, down, fresh, a1, e1),
        on_key(a1, up, fresh, a2, e2),
    ensures
        a0.chat_list.selected is None ==> a1 == a0 && a2 == a0,
        a0.chat_list.selected matches Some(i) ==> a1.chat_list.selected is Some
            && a1.chat_list.selected->0 < a0.chat_list.contacts@.len() && (if i + 1
            < a0.chat_list.contacts@.len() {
            a1.chat_list.selected->0 == i + 1 && a2 == a0
        } else {
            a1 == a0
        }),
        a1.chat_list.contacts == a0.chat_list.contacts,
        e1.len() == 0 && e2.len() == 0,
{
}

/// Going up undoes going down among the users that were found, and neither leaves them.
pub proof fn search_keys_undo_each_other(
    a0: App,
    down: KeyEvent,
    up: KeyEvent,
    fresh: Fresh,
    a1: App,
    e1: Seq<Effect>,
    a2: App,
    e2: Seq<Effect>,
)
    requires
        a0.screen is ContactSearch,
        a0.contact_search.selected is Some,
        a0.contact_search.selected->0 < a0.contact_search.results@.len() <= usize::MAX,
        down.pressed && (down.code == KeyCode::Down || down.code == KeyCode::Tab),
        up.pressed && (up.code == KeyCode::Up || up.code == KeyCode::BackTab),
        on_key(a0, down, fresh, a1, e1),
        on_key(a1, up, fresh, a2, e2),
    ensures
        a1.contact_search.selected is Some && a1.contact_search.selected->0
            < a0.contact_search.results@.len(),
        a0.contact_search.selected->0 + 1 < a0.contact_search.results@.len()
            ==> a1.contact_search.selected->0 == a0.contact_search.selected->0 + 1 && a2 == a0,
        a0.contact_search.selected->0 + 1 == a0.contact_search.results@.len() ==> a1 == a0,
        e1.len() == 0 && e2.len() == 0,
{
}

/// The keys of the conversation scroll: a line or ten lines to older messages and back again, to the
/// oldest and to the latest message. The letters do what the keys do, and nothing is sent.
pub proof fn conversation_is_scrolled_with_keys(
    a0: App,
    key: KeyEvent,
    fresh: Fresh,
    a1: App,
    e1: Seq<Effect>,
)
    requires
        a0.wf(),
        a0.screen is Main && a0.focus == Focus::ChatView && a0.delete_confirm is None,
        a0.chat_view.messages@.len() > 0,
        a0.chat_view.scroll_offset < a0.chat_view.messages@.len() <= usize::MAX,
        key.pressed && !is_interrupt(key),
        on_key(a0, key, fresh, a1, e1),
    ensures
        e1.len() == 0,
        a1.chat_view.messages == a0.chat_view.messages && a1.chat_view.compose
            == a0.chat_view.compose,
        a1.chat_view.scroll_offset < a0.chat_view.messages@.len(),
        ({
            let n = if key.code == KeyCode::Up || key.code == KeyCode::Char('k') {
                1int
            } else if key.code == KeyCode::PageUp || key.code == KeyCode::Char('u') {
                10int
            } else {
                0int
            };
            n > 0 && a0.chat_view.scroll_offset + n < a0.chat_view.messages@.len()
                ==> a1.chat_view.scroll_offset == a0.chat_view.scroll_offset + n
        }),
        ({
            let n = if key.code == KeyCode::Down || key.code == KeyCode::Char('j') {
                1int
            } else if key.code == KeyCode::PageDown || key.code == KeyCode::Char('d') {
                10int
            } else {
                0int
            };
            n > 0 && a0.chat_view.scroll_offset >= n ==> a1.chat_view.scroll_offset
                == a0.chat_view.scroll_offset - n
        }),
        key.code == KeyCode::Home ==> a1.chat_view.scroll_offset + 1 == a0.chat_view.messages@.len(),
        key.code == KeyCode::End ==> a1.chat_view.scroll_offset == 0,
{
}

/// The question before a deletion names the contact that it is about: the name that stands in the list
/// under the ID that would be deleted.
pub proof fn question_names_the_contact(
    app: App,
    area: Area,
    now_ms: u64,
    ops: Seq<DrawView>,
    id: String,
    at: int,
)
    requires
        app.delete_confirm == Some(id),
        shows_main(app, area, now_ms, ops),
        0 <= at < app.chat_list.contacts@.len(),
        app.chat_list.contacts@[at].id@ == id@,
        forall|i: int|
            0 <= i < app.chat_list.contacts@.len() && i != at ==> (
            #[trigger] app.chat_list.contacts@[i]).id@ != id@,
    ensures
        ops.len() > 0,
        ops.last() matches DrawView::Text { lines, .. } && lines.len() == 1 && lines[0].len() == 3
            && lines[0][1].text == app.chat_list.contacts@[at].display_name@,
{
    assert(app.chat_list.contacts@[at].id@ == id@);
}

// ── What is seen ─────────────────────────────────────────────────────────────

/// The row of a contact shows its name, the number of unread messages exactly where there are any, and
/// no more of its last message than fits, from its beginning.
pub proof fn contact_is_seen(c: Contact)
    ensures
        contact_lines(c).len() == 2,
        contact_lines(c)[0][0].text == c.display_name@,
        c.unread == 0 <==> contact_lines(c)[0][1].text.len() == 0,
        c.last_message is None ==> contact_lines(c)[1][0].text.len() == 0,
        c.last_message matches Some(m) ==> contact_lines(c)[1][0].text == "\n  "@ + preview_of(m@),
        c.last_message matches Some(m) ==> preview_of(m@).len() <= 19 && (m@.len() <= 18
            ==> preview_of(m@) == m@) && (m@.len() > 18 ==> preview_of(m@).take(18) == m@.take(18)),
{
    reveal_strlit("");
    reveal_strlit(" [");
    reveal_strlit("…");
    if c.last_message is Some {
        let m = c.last_message->0@;
        if m.len() > 18 {
            assert(preview_of(m).take(18) =~= m.take(18));
        }
    }
}

/// The row of a user shows the name and the beginning of the ID, of at most eight bytes.
pub proof fn found_user_is_seen(r: SearchResult)
    ensures
        result_line(r)[0].text == "  @"@ + r.username@,
        exists|n: int| 0 <= n <= r.user_id@.len() && result_line(r)[1].text == "  "@
            + #[trigger] r.user_id@.take(n) && encode_utf8(r.user_id@.take(n)).len() <= 8,
{
    beginning_fits(r.user_id@, 8);
    let n = choose|n: int| 0 <= n <= r.user_id@.len() && fitting(r.user_id@, 8)
        == #[trigger] r.user_id@.take(n) && encode_utf8(r.user_id@.take(n)).len() <= 8;
    assert(result_line(r)[1].text == "  "@ + r.user_id@.take(n));
}

/// What fits is a beginning of the text that is not longer than asked for.
proof fn beginning_fits(t: Seq<char>, limit: nat)
    ensures
        exists|n: int| 0 <= n <= t.len() && fitting(t, limit) == #[trigger] t.take(n) && encode_utf8(
            t.take(n),
        ).len() <= limit,
    decreases t.len(),
{
    if t.len() == 0 || encode_utf8(t).len() <= limit {
        assert(t.take(t.len() as int) =~= t);
        if t.len() == 0 {
            assert(t =~= Seq::<char>::empty());
            assert(encode_utf8(Seq::<char>::empty()).len() == 0);
        }
        assert(fitting(t, limit) == t.take(t.len() as int));
    } else {
        let s = t.drop_last();
        beginning_fits(s, limit);
        let n = choose|n: int| 0 <= n <= s.len() && fitting(s, limit) == #[trigger] s.take(n)
            && encode_utf8(s.take(n)).len() <= limit;
        assert(s.take(n) =~= t.take(n));
        assert(fitting(t, limit) == t.take(n));
    }
}

/// The colour of the connection tells its state: green is for one that is there and red for none at
/// all, and no two states share a colour. The transport that is in use is named.
pub proof fn connection_is_told_by_its_colour(a: ConnectionState, b: ConnectionState, now_ms: u64)
    ensures
        connection_color(a) == Color::Green <==> a is Connected,
        connection_color(a) == Color::Red <==> a is Disconnected,
        connection_color(a) == Color::Yellow <==> a is Reconnecting,
        connection_color(a) == connection_color(b) <==> (a is Connected <==> b is Connected) && (a
            is Disconnected <==> b is Disconnected) && (a is Connecting <==> b is Connecting) && (a
            is Reconnecting <==> b is Reconnecting),
        a matches ConnectionState::Connected { transport, .. } ==> occurs_in(
            transport@,
            connection_label(a, now_ms),
        ),
        a matches ConnectionState::Connecting { transport } ==> occurs_in(
            transport@,
            connection_label(a, now_ms),
        ),
{
    match a {
        ConnectionState::Connected { transport, .. } => {
            let n = "● "@.len() as int;
            let label = connection_label(a, now_ms);
            assert(label.subrange(n, n + transport@.len()) =~= transport@);
            assert(stands_at(label, transport@, n));
        },
        ConnectionState::Connecting { transport } => {
            let n = "⠋ connecting ("@.len() as int;
            let label = connection_label(a, now_ms);
            assert(label.subrange(n, n + transport@.len()) =~= transport@);
            assert(stands_at(label, transport@, n));
        },
        _ => {},
    }
}

/// The status bar of the main screen shows the connection as it is and what the client last said, and
/// the conversation stands under the name of its contact.
pub proof fn main_screen_shows_what_is_so(app: App, at: MainPlaces, now_ms: u64)
    ensures
        main_drawing(app, at, now_ms).len() == 6,
        main_drawing(app, at, now_ms)[5] matches DrawView::Text { area, lines, .. } && area
            == at.status && lines.len() == 1 && lines[0].last().text == app.status@
            && lines[0][1].text == connection_label(app.connection, now_ms) && (lines[0][2].text
            == " [PQ] "@ <==> app.pq_active),
        main_drawing(app, at, now_ms)[1] matches DrawView::List { items, selected, .. } && selected
            == app.chat_list.selected && items.len() == app.chat_list.contacts@.len() && forall|
            i: int,
        |
            0 <= i < items.len() ==> (#[trigger] items[i])[0][0].text
                == app.chat_list.contacts@[i].display_name@,
        main_drawing(app, at, now_ms)[2] matches DrawView::Border { area, frame } && area
            == at.conversation && frame.title == " "@ + app.chat_view.contact_name@ + " "@,
        main_drawing(app, at, now_ms)[4] matches DrawView::Text { lines, .. } && lines[0][0].text
            == app.chat_view.compose@ + "_"@,
{
    reveal_strlit(" [PQ] ");
    reveal_strlit("");
    assert(" [PQ] "@.len() != ""@.len());
}

/// A row of the settings shows its label, and its value where it has nothing to do; only what logs out
/// is red.
pub proof fn setting_is_seen(i: SettingsItem)
    requires
        i.label@.len() > 0,
    ensures
        i.action is Some ==> item_line(i).len() == 1 && item_line(i)[0].text == "  "@ + i.label@
            && (item_line(i)[0].style.fg == Some(Color::Red) <==> occurs_in("Logout"@, i.label@)),
        i.action is None ==> item_line(i).len() == 2 && item_line(i)[1].text == i.value@
            && item_line(i)[0].text.take(2 + i.label@.len() as int) == "  "@ + i.label@,
{
    reveal_strlit("  ");
    if i.action is None {
        assert(item_line(i)[0].text.take(2 + i.label@.len() as int) =~= "  "@ + i.label@);
    }
}

/// Each step of a registration stands in the checklist under its own label.
pub proof fn steps_stand_under_their_labels()
    ensures
        step_labels()[RegistrationStep::SigningKey.place() as int]@
            == "Generating signing key  (Ed25519)"@,
        step_labels()[RegistrationStep::IdentityKey.place() as int]@
            == "Generating identity key (X25519)"@,
        step_labels()[RegistrationStep::SignedPreKey.place() as int]@
            == "Generating signed pre-key (X25519)"@,
        step_labels()[RegistrationStep::SignPreKey.place() as int]@ == "Signing pre-key"@,
        step_labels()[RegistrationStep::Connect.place() as int]@ == "Connecting to Construct"@,
        step_labels()[RegistrationStep::ProofOfWork.place() as int]@ == "Solving proof-of-work"@,
        step_labels()[RegistrationStep::Register.place() as int]@ == "Registering identity"@,
{
}

/// Tab leads from the contacts to the box to write in, and so it does from the conversation; Esc and
/// Shift+Tab lead back to the contacts from both. What was written and what is shown stay.
pub proof fn focus_goes_there_and_back(
    before: App,
    key: KeyEvent,
    fresh: Fresh,
    after: App,
    effects: Seq<Effect>,
)
    requires
        before.wf(),
        before.screen is Main && before.delete_confirm is None,
        key.pressed,
        key.code == KeyCode::Tab || key.code == KeyCode::Esc || key.code == KeyCode::BackTab,
        on_key(before, key, fresh, after, effects),
    ensures
        effects.len() == 0,
        key.code == KeyCode::Tab ==> after.focus == Focus::Compose,
        key.code != KeyCode::Tab ==> after.focus == Focus::ContactList,
        after.chat_list.focused <==> after.focus == Focus::ContactList,
        after.chat_view.focused <==> after.focus == Focus::ChatView,
        after.chat_view.compose_focused <==> after.focus == Focus::Compose,
        after.chat_view.compose == before.chat_view.compose,
        after.chat_view.messages == before.chat_view.messages,
        after.chat_list.contacts == before.chat_list.contacts && after.chat_list.selected
            == before.chat_list.selected,
        after.running == before.running,
{
}

/// Any key leads back to the settings from the safety number and from the own QR code, and from an
/// error back to where one can try again.
pub proof fn any_key_leads_back(
    before: App,
    key: KeyEvent,
    fresh: Fresh,
    after: App,
    effects: Seq<Effect>,
)
    requires
        before.screen is SafetyNumber || before.screen is IdentityQr || before.screen is AuthError,
        key.pressed && !is_interrupt(key),
        on_key(before, key, fresh, after, effects),
    ensures
        effects.len() == 0,
        before.screen is SafetyNumber || before.screen is IdentityQr ==> after == (App {
            screen: Screen::Settings,
            ..before
        }),
        before.screen is AuthError && before.session_key is Some ==> after.screen is Unlock,
        before.screen is AuthError && before.session_key is None ==> after.screen is Onboarding,
        after.session_key == before.session_key,
        after.running == before.running,
{
}

/// The forms show what was typed into them.
pub proof fn forms_show_what_was_typed(
    link: DeviceLinkScreen,
    search: ContactSearchScreen,
    area: Area,
    parts: Seq<Area>,
)
    requires
        parts.len() == 4,
    ensures
        link_drawing(link, area)[1] matches DrawView::Text { lines, .. } && lines[0][0].text
            == link.token@ + "_"@,
        search_drawing(search, area, parts)[2] matches DrawView::Text { lines, .. } && occurs_in(
            search.query@,
            lines[0][0].text,
        ),
        search_drawing(search, area, parts).last() matches DrawView::List { items, selected, .. }
            && selected == search.selected && items.len() == search.results@.len() && forall|i: int|
            0 <= i < items.len() ==> (#[trigger] items[i])[0] == result_line(search.results@[i]),
        search.status matches Some(msg) ==> (search_drawing(
            search,
            area,
            parts,
        )[3] matches DrawView::Text { lines, .. } && lines[0][0].text == "  "@ + msg@ && (
        lines[0][0].style.fg == Some(Color::Red) <==> search.is_error)),
{
    let n = "  "@.len() as int;
    let q = search.query@;
    let shown = if search.searching {
        "  "@ + q + "  ⠋"@
    } else {
        "  "@ + q + "_"@
    };
    assert(shown.subrange(n, n + q.len()) =~= q);
    assert(stands_at(shown, q, n));
}

/// Whatever fails outside, the user is told why, in the words that came with the failure, and nothing
/// is started on top of it.
pub proof fn reasons_are_told(before: App, reply: Reply, reason: String, after: App, effects: Seq<Effect>)
    requires
        reply == Reply::ClientBuilt(Err(reason)) || reply == Reply::StorageOpened(Err(reason))
            || reply == Reply::SessionCleared(Err(reason)) || (reply matches Reply::Exported {
            result,
            ..
        } && result == Err::<(), String>(reason)) || (reply matches Reply::Deleted { result, .. }
            && result == Err::<(), String>(reason)),
        on_reply(before, reply, after, effects),
    ensures
        after == (App { status: after.status, ..before }),
        after.status@.len() > reason@.len(),
        after.status@.skip(after.status@.len() - reason@.len()) == reason@,
        effects.len() == 0,
{
    reveal_strlit("Orchestrator init error: ");
    reveal_strlit("Storage open error: ");
    reveal_strlit("Logout error: ");
    reveal_strlit("Export failed: ");
    reveal_strlit("Delete failed: ");
    assert(after.status@.skip(after.status@.len() - reason@.len()) =~= reason@);
}

/// A search that failed says so, as an error, and is over; what was typed and found before stays.
pub proof fn failed_search_is_told(
    before: App,
    reason: String,
    fresh: Fresh,
    after: App,
    effects: Seq<Effect>,
)
    requires
        on_internal(before, InternalEvent::ContactSearchError(reason), fresh, after, effects),
    ensures
        after.contact_search.status matches Some(s) && s@ == reason@,
        after.contact_search.is_error && !after.contact_search.searching,
        after.contact_search.query == before.contact_search.query,
        after.contact_search.results == before.contact_search.results,
        after.chat_list == before.chat_list && after.screen == before.screen,
        effects.len() == 0,
{
}

/// There is always a way back: from the settings, from the search, from the form for a link token and,
/// on the first run with nothing typed, out of the client. None of it does anything else.
pub proof fn there_is_a_way_back(
    before: App,
    key: KeyEvent,
    fresh: Fresh,
    after: App,
    effects: Seq<Effect>,
)
    requires
        key.pressed && key.modifiers == Modifiers::Plain,
        before.screen is Settings && (key.code == KeyCode::Esc || key.code == KeyCode::Char('b')
            || key.code == KeyCode::Char('q')) || before.screen is ContactSearch && key.code
            == KeyCode::Esc || before.screen is DeviceLink && (key.code == KeyCode::Esc || key.code
            == KeyCode::Char('q')) || before.screen is Onboarding && key.code == KeyCode::Char('q')
            && before.onboarding.username@.len() == 0,
        on_key(before, key, fresh, after, effects),
    ensures
        effects.len() == 0,
        before.screen is Settings || before.screen is ContactSearch ==> after.screen is Main,
        before.screen is DeviceLink ==> after.screen is Onboarding,
        after.running <==> before.running && !(before.screen is Onboarding),
        after.chat_list == before.chat_list && after.chat_view == before.chat_view,
        after.session_key == before.session_key && after.current_session == before.current_session,
        before.screen is ContactSearch ==> after.contact_search.query@.len() == 0
            && after.contact_search.results@.len() == 0,
{
    reveal_strlit("");
}

/// The keys of the main screen lead where they say: to the settings, to a new search and to the box to
/// write in.
pub proof fn letters_lead_on(
    before: App,
    key: KeyEvent,
    fresh: Fresh,
    after: App,
    effects: Seq<Effect>,
)
    requires
        before.screen is Main && before.focus == Focus::ContactList && before.delete_confirm is None,
        key.pressed && key.modifiers == Modifiers::Plain,
        on_key(before, key, fresh, after, effects),
    ensures
        key.code == KeyCode::Char('s') <==> after.screen is Settings,
        (key.code == KeyCode::Char('n') || key.code == KeyCode::Char('a')) <==> after.screen
            is ContactSearch,
        after.screen is ContactSearch ==> after.contact_search.query@.len() == 0
            && after.contact_search.chosen() is None,
        key.code == KeyCode::Char('i') ==> after.focus == Focus::Compose && after.screen is Main,
        key.code == KeyCode::Char('q') ==> !after.running,
        key.code != KeyCode::Char('q') ==> after.running == before.running,
        after.chat_list.contacts == before.chat_list.contacts,
{
    reveal_strlit("");
}

/// A name or a passphrase that has reached its limit takes nothing more, and one key adds no more than
/// one character.
pub proof fn full_fields_take_nothing(
    before: App,
    typed: KeyEvent,
    c: char,
    fresh: Fresh,
    after: App,
    effects: Seq<Effect>,
)
    requires
        before.screen is Onboarding || before.screen is Unlock || before.screen is SetPassphrase,
        typed.pressed && typed.code == KeyCode::Char(c) && !is_interrupt(typed),
        on_key(before, typed, fresh, after, effects),
    ensures
        encode_utf8(before.onboarding.username@).len() >= 32 ==> after.onboarding.username@
            == before.onboarding.username@,
        encode_utf8(before.unlock_screen.passphrase@).len() >= 128
            ==> after.unlock_screen.passphrase@ == before.unlock_screen.passphrase@,
        after.onboarding.username@.len() <= before.onboarding.username@.len() + 1,
        after.unlock_screen.passphrase@.len() <= before.unlock_screen.passphrase@.len() + 1,
        before.screen is Unlock ==> after.unlock_screen.error is None,
        after.screen == before.screen,
        effects.len() == 0,
{
}

/// Enter without a passphrase asks for one and reads nothing.
pub proof fn passphrase_is_asked_for(
    before: App,
    enter: KeyEvent,
    fresh: Fresh,
    after: App,
    effects: Seq<Effect>,
)
    requires
        before.screen is Unlock,
        enter.pressed && enter.code == KeyCode::Enter,
        on_key(before, enter, fresh, after, effects),
    ensures
        effects.len() == 0 <==> encode_utf8(before.unlock_screen.passphrase@).len() == 0,
        effects.len() == 0 ==> after.unlock_screen.error is Some,
        effects.len() > 0 ==> effects.len() == 1 && (effects[0] matches Effect::ReadSession {
            passphrase,
        } && passphrase@ == encode_utf8(before.unlock_screen.passphrase@)),
        after.screen is Unlock,
{
}

/// The safety number is asked for only where there are a contact and an own key; otherwise the user is
/// told which of the two is missing.
pub proof fn safety_number_needs_contact_and_key(
    before: App,
    key: KeyEvent,
    fresh: Fresh,
    after: App,
    effects: Seq<Effect>,
)
    requires
        before.screen is Settings,
        before.has_storage,
        key.pressed && key.code == KeyCode::Char('s') && key.modifiers == Modifiers::Plain,
        on_key(before, key, fresh, after, effects),
    ensures
        effects.len() == 1 <==> before.chat_list.chosen() is Some && before.our_identity_key is Some,
        effects.len() <= 1,
        before.chat_list.chosen() is None ==> after.status@ == "Select a contact first"@,
        before.chat_list.chosen() is Some && before.our_identity_key is None ==> after.status@
            == "Identity key not available"@,
        after.screen is Settings,
{
}

/// The spinner turns only while a registration is under way, by one frame at a time, and comes back to
/// where it was after eight.
pub proof fn spinner_turns(before: App, fresh: Fresh, after: App, effects: Seq<Effect>)
    requires
        on_internal(before, InternalEvent::Tick, fresh, after, effects),
    ensures
        effects.len() == 0,
        !(before.screen is Registering) ==> after == before,
        before.screen is Registering ==> after.registration.spinner_tick as int % 8 == (
        before.registration.spinner_tick as int % 8 + 1) % 8,
        after.registration.active_step == before.registration.active_step,
        after.screen == before.screen,
{
}

// ── Places on the screen ─────────────────────────────────────────────────────

/// What is centred stays inside its area, takes no more room than it needs, and leaves the same margin
/// on both sides, to within one cell.
pub proof fn centred_row_is_in_the_middle(area: Area, y: u16, width: u16)
    requires
        area.x + area.width <= u16::MAX,
    ensures
        ({
            let r = centred_row(area, y, width);
            let left = r.x - area.x;
            let right = area.x + area.width - (r.x + r.width);
            &&& r.y == y && r.height == 1
            &&& r.width == width || r.width == area.width < width
            &&& 0 <= left <= right <= left + 1
        }),
{
}

/// A field to type in is in the middle, three rows high and at most 42 cells wide, and where there is
/// room it leaves a margin of two cells at least.
pub proof fn field_is_in_the_middle(area: Area, y: u16)
    requires
        area.x + area.width <= u16::MAX,
    ensures
        ({
            let r = field_row(area, y);
            let left = r.x - area.x;
            let right = area.x + area.width - (r.x + r.width);
            &&& r.y == y && r.height == 3
            &&& r.width <= 42
            &&& area.width >= 46 ==> r.width == 42
            &&& 0 <= left <= right <= left + 1
            &&& area.width >= 4 ==> left >= 2
        }),
{
}

/// The own QR code is shown in the middle of its area, both ways, and never beyond it.
pub proof fn code_is_in_the_middle(area: Area, w: u16, h: u16)
    requires
        area.x + area.width <= u16::MAX && area.y + area.height <= u16::MAX,
    ensures
        ({
            let r = middle_of(area, w, h);
            let left = r.x - area.x;
            let right = area.x + area.width - (r.x + r.width);
            let above = r.y - area.y;
            let under = area.y + area.height - (r.y + r.height);
            &&& w <= area.width ==> r.width == w
            &&& h <= area.height ==> r.height == h
            &&& 0 <= left <= right <= left + 1
            &&& 0 <= above <= under <= above + 1
        }),
{
}

} // verus!
