//! One contact, one ID: what is listed, saved, subscribed to, written to and deleted is the same user.

use vstd::prelude::*;
use vstd::utf8::*;

use crate::app::{
    on_internal, on_key, on_reply, served, App, Effect, Focus, Fresh, InternalEvent, Reply, Served,
};
use crate::grpc::{are_results, is_found, FindUserReply};
use crate::keys::{KeyCode, KeyEvent, Modifiers};
use crate::orchestrator_task::IncomingEvent;
use crate::screens::chat_list::Contact;
use crate::screens::contact_search::SearchResult;
use crate::storage::{has_entry, is_clean, stored_contacts, Storage, StoredContact};
use crate::streaming::StreamCmd;
use crate::text::trimmed;

verus! {

// ── New contacts ─────────────────────────────────────────────────────────────

/// The contact that is put into the list is the one that is saved and subscribed to: after Ctrl+A on a
/// selected user, the ID of the last contact of the list is the one that is saved and the only one that
/// is subscribed to. The contacts before it stay.
pub proof fn listed_contact_is_saved_and_subscribed_to(
    before: App,
    found: SearchResult,
    key: KeyEvent,
    fresh: Fresh,
    after: App,
    effects: Seq<Effect>,
)
    requires
        before.screen is ContactSearch,
        before.contact_search.chosen() == Some(found),
        key.pressed && key.code == KeyCode::Char('a') && key.modifiers == Modifiers::Control,
        on_key(before, key, fresh, after, effects),
    ensures
        after.chat_list.contacts@.len() == before.chat_list.contacts@.len() + 1,
        after.chat_list.contacts@.drop_last() == before.chat_list.contacts@,
        after.chat_list.contacts@.last().id@ == found.user_id@,
        after.chat_list.contacts@.last().display_name@ == found.display_name@,
        before.has_storage <==> exists|i: int|
            0 <= i < effects.len() && (#[trigger] effects[i]) is UpsertContact,
        before.has_stream <==> exists|i: int|
            0 <= i < effects.len() && (#[trigger] effects[i]) is ToStream,
        forall|i: int|
            0 <= i < effects.len() ==> ((#[trigger] effects[i]) matches Effect::UpsertContact(c)
                ==> c.user_id@ == after.chat_list.contacts@.last().id@ && c.display_name@
                == after.chat_list.contacts@.last().display_name@),
        forall|i: int|
            0 <= i < effects.len() ==> ((#[trigger] effects[i]) matches Effect::ToStream(cmd) ==> {
                &&& cmd matches StreamCmd::Subscribe(ids, _)
                &&& ids@.len() == 1
                &&& ids@[0]@ == after.chat_list.contacts@.last().id@
            }),
        after.screen is Main,
{
    if before.has_storage {
        assert(effects[0] is UpsertContact);
    }
    if before.has_stream {
        assert(effects[effects.len() - 1] is ToStream);
    }
}

/// A message goes to the very user that the server found: from the search, through the list of
/// contacts, to what is handed to the messaging core, the ID is the one that the server gave. The
/// user is shown under the name that was searched for.
pub proof fn message_goes_to_the_user_that_was_found(
    id: String,
    query: Seq<char>,
    found: Result<Option<String>, String>,
    results: Vec<SearchResult>,
    fresh: Fresh,
    a0: App,
    a1: App,
    e1: Seq<Effect>,
    add_key: KeyEvent,
    a2: App,
    e2: Seq<Effect>,
    a3: App,
    enter: KeyEvent,
    a4: App,
    e4: Seq<Effect>,
)
    requires
        is_found(FindUserReply::Found(id), found),
        found is Ok && are_results(query, found->Ok_0, results@),
        a0.screen is ContactSearch,
        on_internal(a0, InternalEvent::ContactSearchResult(results), fresh, a1, e1),
        add_key.pressed && add_key.code == KeyCode::Char('a') && add_key.modifiers
            == Modifiers::Control,
        on_key(a1, add_key, fresh, a2, e2),
        // Later that contact is chosen and something is written.
        a3.chat_list.contacts == a2.chat_list.contacts,
        a3.chat_list.selected is Some && a3.chat_list.selected->0 == a2.chat_list.contacts@.len() - 1,
        a3.screen is Main && a3.focus == Focus::Compose && a3.delete_confirm is None,
        a3.has_orchestrator,
        trimmed(a3.chat_view.compose@).len() > 0,
        enter.pressed && enter.code == KeyCode::Enter,
        on_key(a3, enter, fresh, a4, e4),
    ensures
        a2.chat_list.contacts@.len() == a0.chat_list.contacts@.len() + 1,
        a2.chat_list.contacts@.last().id@ == id@,
        a2.chat_list.contacts@.last().display_name@ == query,
        e4.len() == 1,
        e4[0] matches Effect::ToCore(IncomingEvent::OutgoingMessage { contact_id, plaintext, .. })
            && contact_id@ == id@ && plaintext@ == encode_utf8(a3.chat_view.compose@),
{
}

/// Whoever is not there is not found, and where a search fails the user is told so: no contact can be
/// added from either.
pub proof fn nobody_is_added_where_nobody_is_found(
    reply: FindUserReply,
    query: Seq<char>,
    found: Result<Option<String>, String>,
    results: Vec<SearchResult>,
    fresh: Fresh,
    a0: App,
    a1: App,
    e1: Seq<Effect>,
    add_key: KeyEvent,
    a2: App,
    e2: Seq<Effect>,
)
    requires
        reply is NotFound,
        is_found(reply, found),
        found is Ok ==> are_results(query, found->Ok_0, results@),
        a0.screen is ContactSearch,
        on_internal(a0, InternalEvent::ContactSearchResult(results), fresh, a1, e1),
        add_key.pressed && add_key.code == KeyCode::Char('a') && add_key.modifiers
            == Modifiers::Control,
        on_key(a1, add_key, fresh, a2, e2),
    ensures
        found is Ok,
        a1.contact_search.chosen() is None,
        a2 == a1,
        a2.chat_list == a0.chat_list,
        e2.len() == 0,
{
}

/// What is searched for is what was typed, without the space around it, and the key that deletes undoes
/// the one that was typed before.
pub proof fn search_is_for_what_was_typed(
    a0: App,
    typed: KeyEvent,
    c: char,
    erase: KeyEvent,
    enter: KeyEvent,
    fresh: Fresh,
    a1: App,
    e1: Seq<Effect>,
    a2: App,
    e2: Seq<Effect>,
    b1: App,
    f1: Seq<Effect>,
)
    requires
        a0.screen is ContactSearch,
        typed.pressed && typed.code == KeyCode::Char(c) && typed.modifiers == Modifiers::Plain,
        erase.pressed && erase.code == KeyCode::Backspace,
        enter.pressed && enter.code == KeyCode::Enter,
        on_key(a0, typed, fresh, a1, e1),
        on_key(a1, erase, fresh, a2, e2),
        on_key(a0, enter, fresh, b1, f1),
    ensures
        a1.contact_search.query@ == a0.contact_search.query@.push(c),
        a2.contact_search.query@ == a0.contact_search.query@,
        a2.contact_search.results == a0.contact_search.results,
        a2.chat_list == a0.chat_list,
        e1.len() == 0 && e2.len() == 0,
        f1.len() == 0 <==> trimmed(a0.contact_search.query@).len() == 0,
        f1.len() > 0 ==> f1.len() == 1 && b1.contact_search.searching && (f1[0] matches Effect::Search {
            query,
        } && query@ == trimmed(a0.contact_search.query@)),
{
    assert(a0.contact_search.query@.push(c).drop_last() =~= a0.contact_search.query@);
}

// ── The chosen contact ───────────────────────────────────────────────────────

/// Whatever is done with the chosen contact is done under its ID: its conversation is the one that is
/// loaded, it is written to, it is the one that the user is asked about and that is then deleted, and
/// its key is looked up for the safety number.
pub proof fn chosen_contact_has_one_id(
    c: Contact,
    fresh: Fresh,
    key: KeyEvent,
    before: App,
    after: App,
    effects: Seq<Effect>,
)
    requires
        before.chat_list.chosen() == Some(c),
        before.delete_confirm is None,
        key.pressed,
        on_key(before, key, fresh, after, effects),
        before.screen is Main || before.screen is Settings,
    ensures
        forall|i: int|
            0 <= i < effects.len() ==> match #[trigger] effects[i] {
                Effect::LoadHistory { peer_id, .. } => peer_id@ == c.id@,
                Effect::LookUpContact { contact_id, contact_name } => contact_id@ == c.id@
                    && contact_name@ == c.display_name@,
                Effect::ToCore(IncomingEvent::OutgoingMessage { contact_id, .. }) => contact_id@
                    == c.id@,
                _ => !(effects[i] is DeleteContact),
            },
        after.delete_confirm matches Some(id) ==> id@ == c.id@,
        before.screen is Main && before.focus == Focus::ContactList && key.code == KeyCode::Char('x')
            && key.modifiers == Modifiers::Plain ==> after.delete_confirm is Some,
        before.screen is Main && before.focus == Focus::ContactList && key.code == KeyCode::Enter
            ==> {
            &&& after.chat_view.contact_name@ == c.display_name@
            &&& after.chat_view.messages@.len() == 0
            &&& after.focus == Focus::ChatView
            &&& before.has_storage ==> effects.len() == 1 && effects[0] is LoadHistory
        },
{
}

/// Only a `y` deletes, and then the contact that the user was asked about and no other; with any other
/// key the question is taken back and nothing is done.
pub proof fn only_the_asked_contact_is_deleted(
    before: App,
    id: String,
    key: KeyEvent,
    fresh: Fresh,
    after: App,
    effects: Seq<Effect>,
)
    requires
        before.screen is Main,
        before.has_storage,
        before.delete_confirm == Some(id),
        key.pressed && !crate::keys::is_interrupt(key),
        on_key(before, key, fresh, after, effects),
    ensures
        after.delete_confirm is None,
        after.chat_list == before.chat_list,
        after.chat_view == before.chat_view,
        key.code == KeyCode::Char('y') || key.code == KeyCode::Char('Y') <==> effects.len() == 1,
        effects.len() <= 1,
        forall|i: int|
            0 <= i < effects.len() ==> ((#[trigger] effects[i]) matches Effect::DeleteContact {
                peer_id,
            } && peer_id@ == id@),
{
}

/// A deleted contact is gone from the database with its messages, and from the list; all other
/// contacts and messages stay, in their order.
pub proof fn deleted_contact_is_gone(
    storage: Storage,
    later: Storage,
    peer_id: String,
    outcome: Served,
    before: App,
    after: App,
    effects: Seq<Effect>,
    at: int,
)
    requires
        storage.is_own(),
        is_clean(peer_id@),
        served(storage, Effect::DeleteContact { peer_id }, later, outcome),
        outcome matches Served::Done { result, .. } && result is Ok,
        outcome->reply is Some,
        on_reply(before, outcome->reply->0, after, effects),
        // Each ID stands once in the list.
        0 <= at < before.chat_list.contacts@.len(),
        before.chat_list.contacts@[at].id@ == peer_id@,
        forall|i: int|
            0 <= i < before.chat_list.contacts@.len() && i != at ==> (
            #[trigger] before.chat_list.contacts@[i]).id@ != peer_id@,
    ensures
        !later.contents().contacts.contains_key(peer_id@),
        forall|id: Seq<char>|
            id != peer_id@ ==> (later.contents().contacts.contains_key(id)
                <==> #[trigger] storage.contents().contacts.contains_key(id)),
        forall|id: Seq<char>|
            #[trigger] storage.contents().messages.contains_key(id) ==> (
            later.contents().messages.contains_key(id) <==> storage.contents().messages[id].0
                != peer_id@),
        after.chat_list.contacts@ == before.chat_list.contacts@.take(at)
            + before.chat_list.contacts@.skip(at + 1),
        after.chat_view.messages@.len() == 0,
        after.chat_view.compose == before.chat_view.compose,
        after.chat_list.chosen() matches Some(c) ==> after.chat_view.contact_name@
            == c.display_name@,
        after.chat_list.chosen() is None <==> before.chat_list.contacts@.len() == 1,
        after.chat_list.chosen() is None ==> after.chat_view.contact_name@.len() == 0,
        effects.len() == 0,
{
    let cs = before.chat_list.contacts@;
    assert(after.chat_list.contacts@ =~= cs.take(at) + cs.skip(at + 1)) by {
        let place = choose|place: Option<usize>|
            #[trigger] crate::app::forgets(before, peer_id@, place, after);
        assert(crate::app::forgets(before, peer_id@, place, after));
        if place is None {
            assert(cs[at].id@ != peer_id@);
        } else {
            assert(place->0 == at);
        }
    }
    reveal_strlit("");
    assert forall|j: int| 0 <= j < after.chat_list.contacts@.len() implies (
    #[trigger] after.chat_list.contacts@[j]).id@ != peer_id@ by {
        if j < at {
            assert(after.chat_list.contacts@[j] == cs[j]);
        } else {
            assert(after.chat_list.contacts@[j] == cs[j + 1]);
        }
    }
    assert(crate::app::is_place_of(after.chat_list.contacts@, peer_id@, None));
}

/// A contact that could not be deleted stays in the list, and the user is told why.
pub proof fn undeleted_contact_stays(
    before: App,
    peer_id: String,
    reason: String,
    after: App,
    effects: Seq<Effect>,
)
    requires
        on_reply(before, Reply::Deleted { peer_id, result: Err::<(), String>(reason) }, after, effects),
    ensures
        after.chat_list == before.chat_list,
        after.chat_view == before.chat_view,
        after.status@ == "Delete failed: "@ + reason@,
        effects.len() == 0,
{
}

// ── Contacts in the database ─────────────────────────────────────────────────

/// A contact that was saved is in the list after the next start, under its ID and its name, and is
/// among those whose messages are subscribed to.
pub proof fn saved_contact_is_listed_again(
    s0: Storage,
    contact: StoredContact,
    s1: Storage,
    saved: Served,
    s2: Storage,
    loaded: Served,
    before: App,
    after: App,
    effects: Seq<Effect>,
)
    requires
        s0.is_own(),
        is_clean(contact.user_id@),
        served(s0, Effect::UpsertContact(contact), s1, saved),
        saved matches Served::Done { result, .. } && result is Ok,
        served(s1, Effect::LoadContacts, s2, loaded),
        loaded matches Served::Done { result, .. } && result is Ok,
        loaded->reply is Some,
        on_reply(before, loaded->reply->0, after, effects),
    ensures
        exists|i: int|
            0 <= i < after.chat_list.contacts@.len() && (#[trigger] after.chat_list.contacts@[i]).id@
                == contact.user_id@ && after.chat_list.contacts@[i].display_name@
                == contact.display_name@,
        effects.len() == 1,
        effects[0] matches Effect::PrepareCore { contact_ids } && contact_ids@.len()
            == after.chat_list.contacts@.len() && forall|i: int|
            0 <= i < contact_ids@.len() ==> (#[trigger] contact_ids@[i])@
                == after.chat_list.contacts@[i].id@,
        after.has_storage,
{
    let stored = (loaded->reply->0)->ContactsLoaded_0->0;
    let entries = stored_contacts(stored@);
    assert(s1.contents().contacts.contains_key(contact.user_id@));
    assert(has_entry(entries, contact.user_id@));
    let i = choose|i: int| 0 <= i < entries.len() && (#[trigger] entries[i]).0 == contact.user_id@;
    assert(entries[i].1 == contact.row());
    assert(after.chat_list.contacts@[i].id@ == contact.user_id@);
    assert(after.chat_list.contacts@[i].display_name@ == contact.display_name@);
}

/// The key that a contact was saved with is the one that its safety number is made of, under its name.
pub proof fn saved_key_is_looked_up(
    s0: Storage,
    contact: StoredContact,
    s1: Storage,
    saved: Served,
    contact_name: String,
    s2: Storage,
    looked: Served,
)
    requires
        s0.is_own(),
        is_clean(contact.user_id@),
        served(s0, Effect::UpsertContact(contact), s1, saved),
        saved matches Served::Done { result, .. } && result is Ok,
        served(
            s1,
            Effect::LookUpContact { contact_id: contact.user_id, contact_name },
            s2,
            looked,
        ),
        looked matches Served::Done { result, .. } && result is Ok,
    ensures
        looked->reply matches Some(Reply::ContactFound {
            contact_name: name,
            identity_key_b64: Some(key),
        }) && name@ == contact_name@ && key@ == contact.identity_key_b64@,
{
}

/// The message stream is started with the contacts that are listed, and the stream, the messaging core
/// and the upload of its keys with the tokens and IDs of the user that signed in.
pub proof fn stream_follows_all_contacts(
    loaded: Vec<StoredContact>,
    a0: App,
    a1: App,
    e1: Seq<Effect>,
    contact_ids: Vec<String>,
    identity_key: Option<Vec<u8>>,
    otpk_count: usize,
    a2: App,
    e2: Seq<Effect>,
)
    requires
        on_reply(a0, Reply::ContactsLoaded(Some(loaded)), a1, e1),
        e1[0] == (Effect::PrepareCore { contact_ids }),
        on_reply(a1, Reply::CorePrepared { contact_ids, identity_key, otpk_count }, a2, e2),
    ensures
        a2.our_identity_key == identity_key,
        a2.has_stream && a2.has_orchestrator && a2.has_storage,
        a2.chat_list.contacts@.len() == loaded@.len(),
        e2.len() == if otpk_count > 0 {
            4nat
        } else {
            3nat
        },
        e2[0] matches Effect::SpawnStream { access_token, contact_ids: ids } && access_token@
            == a0.access_token@ && ids@.len() == loaded@.len() && forall|i: int|
            0 <= i < ids@.len() ==> (#[trigger] ids@[i])@ == a2.chat_list.contacts@[i].id@,
        e2[1] matches Effect::SpawnOrchestrator { access_token, user_id, device_id } && access_token@
            == a0.access_token@ && user_id@ == a0.user_id@ && device_id@ == a0.device_id@,
        e2[2] == Effect::ToCore(IncomingEvent::AppLaunched),
        otpk_count > 0 ==> (e2[3] matches Effect::UploadOtpks { access_token, user_id, device_id }
            && access_token@ == a0.access_token@ && user_id@ == a0.user_id@ && device_id@
            == a0.device_id@),
{
}

} // verus!
