//! The keys, the session and the tokens of a device.

use vstd::prelude::*;
use vstd::utf8::*;

use crate::app::{
    core_start, on_auth, on_key, on_refresh, on_reply, on_startup, on_success, App, AuthMsg,
    AuthSuccess, Effect, Fresh, Reply, SavePurpose, Screen,
};
use crate::auth::{
    is_new_session, is_signed_request, prekey_signature, published, with_tokens, AuthTokens,
    AuthenticateRequest, DeviceKeys, DevicePublicKeys,
};
use crate::bridge::{is_outcome, refresh_wait, TokenRefreshMsg};
use crate::codec::{base64_text, hex_bytes, hex_error, hex_reads_back, is_hex_text};
use crate::config::{
    are_session_places, is_session_path, opened_session, state_of, stored_salt, ConfigError,
    EncryptedSession, Session, SessionFile,
};
use crate::crypto::ed25519_signature;
use crate::grpc::{asks_to_join, JoinRequest};
use crate::ids::hex_digits;
use crate::keys::{KeyCode, KeyEvent};
use crate::text::signed_text;

verus! {

// ── The keys of a device ─────────────────────────────────────────────────────

/// The keys that were made for a device are those that its messaging core is made from, each in its
/// place, and the signature over the pre-key is one under the signing key that the core gets.
pub proof fn core_gets_the_keys_of_the_device(
    s: Session,
    keys: DeviceKeys,
    prologue: Seq<u8>,
    device_id: Seq<char>,
    tokens: AuthTokens,
    status_before: Seq<char>,
    status_after: Seq<char>,
    effects: Seq<Effect>,
)
    requires
        is_new_session(s, keys, prekey_signature(keys, prologue), device_id, tokens),
        core_start(s, status_before, status_after, effects),
    ensures
        status_after == status_before,
        effects.len() == 1,
        effects[0] matches Effect::BuildClient { identity, signing, spk, spk_sig } && identity@
            == keys.identity_secret@ && signing@ == keys.signing_secret@ && spk@
            == keys.spk_secret@ && spk_sig@ == ed25519_signature(
            signing@,
            prologue + keys.spk_public@,
        ),
{
    hex_reads_back(keys.identity_secret@);
    hex_reads_back(keys.signing_secret@);
    hex_reads_back(keys.spk_secret@);
    hex_reads_back(prekey_signature(keys, prologue));
}


/// Once a new session was saved, and once a session that needs no saving was authenticated, the core
/// is made from the keys of the session that was authenticated.
pub proof fn login_starts_the_core_of_the_device(
    s: AuthSuccess,
    keys: DeviceKeys,
    prologue: Seq<u8>,
    device_id: Seq<char>,
    tokens: AuthTokens,
    a0: App,
    a1: App,
    login: Seq<Effect>,
    saved: Session,
    purpose: SavePurpose,
    a2: App,
    start: Seq<Effect>,
)
    requires
        is_new_session(s.full_session, keys, prekey_signature(keys, prologue), device_id, tokens),
        on_success(a0, s, a1, login),
        on_reply(
            a1,
            Reply::Saved { session: saved, purpose, result: Ok::<(), String>(()) },
            a2,
            start,
        ),
    ensures
        s.pending_save is None ==> login.len() == 1 && (login[0] matches Effect::BuildClient {
            identity,
            signing,
            spk,
            spk_sig,
        } && identity@ == keys.identity_secret@ && signing@ == keys.signing_secret@ && spk@
            == keys.spk_secret@ && spk_sig@ == prekey_signature(keys, prologue)),
        start.len() == 1,
        start[0] matches Effect::BuildClient { identity, signing, spk, spk_sig } && identity@
            == keys.identity_secret@ && signing@ == keys.signing_secret@ && spk@
            == keys.spk_secret@ && spk_sig@ == prekey_signature(keys, prologue),
        a2.screen is Main,
{
    hex_reads_back(keys.identity_secret@);
    hex_reads_back(keys.signing_secret@);
    hex_reads_back(keys.spk_secret@);
    hex_reads_back(prekey_signature(keys, prologue));
}

/// A device authenticates itself with the signing key that was made for it, over its ID and the time.
pub proof fn device_proves_the_key_that_it_was_made_with(
    s: Session,
    keys: DeviceKeys,
    signature: Seq<u8>,
    device_id: Seq<char>,
    tokens: AuthTokens,
    req: AuthenticateRequest,
    timestamp: i64,
)
    requires
        is_new_session(s, keys, signature, device_id, tokens),
        is_signed_request(req, s.device_id@, hex_bytes(s.signing_key_hex@), timestamp),
    ensures
        is_hex_text(s.signing_key_hex@),
        s.signing_key_hex@.len() == 64,
        req.device_id@ == device_id,
        req.timestamp == timestamp,
        req.signature@ == base64_text(
            ed25519_signature(
                keys.signing_secret@,
                encode_utf8(
                    "KonstruktAuth-v1\n"@ + device_id + "\n"@ + signed_text(timestamp as int),
                ),
            ),
        ),
{
    hex_reads_back(keys.signing_secret@);
    hex_digits(keys.signing_secret@);
}

/// What the server is told of a new device is what the device keeps: each public key in its place, and
/// the signature that its session holds, which is one under its own signing key. It is told the same
/// where the device asks to join an account.
pub proof fn server_is_told_what_the_device_keeps(
    s: Session,
    keys: DeviceKeys,
    prologue: Seq<u8>,
    device_id: Seq<char>,
    tokens: AuthTokens,
    told: DevicePublicKeys,
    join: JoinRequest,
    name: Seq<char>,
    platform: Seq<char>,
)
    requires
        is_new_session(s, keys, prekey_signature(keys, prologue), device_id, tokens),
        published(
            told,
            keys.signing_public@,
            keys.identity_public@,
            keys.spk_public@,
            prekey_signature(keys, prologue),
        ),
        asks_to_join(join, device_id, told, name, platform),
    ensures
        told.verifying_key@ == base64_text(keys.signing_public@),
        told.identity_public@ == base64_text(keys.identity_public@),
        told.signed_prekey_public@ == base64_text(keys.spk_public@),
        told.signed_prekey_signature@ == base64_text(hex_bytes(s.spk_sig_hex@)),
        hex_bytes(s.spk_sig_hex@) == ed25519_signature(
            hex_bytes(s.signing_key_hex@),
            prologue + keys.spk_public@,
        ),
        join.pending_device_id@ == s.device_id@,
        join.verifying_key_b64@ == base64_text(keys.signing_public@),
        join.identity_public_b64@ == base64_text(keys.identity_public@),
        join.signed_prekey_public_b64@ == base64_text(keys.spk_public@),
        join.signed_prekey_signature_b64@ == told.signed_prekey_signature@,
        join.device_name@ == name && join.platform@ == platform,
{
    hex_reads_back(keys.signing_secret@);
    hex_reads_back(prekey_signature(keys, prologue));
}

// ── Tokens ───────────────────────────────────────────────────────────────────

/// New tokens take the place of the old ones in a session, each in its own, and nothing else of it
/// changes.
pub proof fn only_the_tokens_of_a_session_change(
    s: Session,
    access_token: String,
    refresh_token: String,
    expires_at: i64,
)
    ensures
        ({
            let r = with_tokens(s, access_token, refresh_token, expires_at);
            &&& r.access_token@ == access_token@
            &&& r.refresh_token@ == refresh_token@
            &&& r.expires_at == expires_at
            &&& r.signing_key_hex@ == s.signing_key_hex@
            &&& r.identity_key_hex@ == s.identity_key_hex@
            &&& r.spk_key_hex@ == s.spk_key_hex@
            &&& r.spk_sig_hex@ == s.spk_sig_hex@
            &&& r.device_id@ == s.device_id@
            &&& r.user_id@ == s.user_id@
        }),
{
}

/// After an authentication the client works with the tokens of the session that it got, and has them
/// refreshed with its refresh token before they expire; what is saved is that very session.
pub proof fn login_goes_on_with_its_tokens(
    before: App,
    s: AuthSuccess,
    after: App,
    effects: Seq<Effect>,
)
    requires
        on_success(before, s, after, effects),
    ensures
        after.user_id@ == s.user_id@,
        after.device_id@ == s.device_id@,
        after.access_token@ == s.access_token@,
        after.current_session == Some(s.full_session),
        after.session_key == before.session_key,
        s.pending_save matches Some(session) ==> {
            &&& effects[0] matches Effect::StartTokenRefresh { device_id, refresh_token, expires_at }
            &&& device_id@ == session.device_id@
            &&& refresh_token@ == session.refresh_token@
            &&& expires_at == session.expires_at
            &&& forall|i: int|
                0 <= i < effects.len() ==> ((#[trigger] effects[i]) matches Effect::SaveSession {
                    session: saved,
                    ..
                } ==> saved == session)
            &&& after.pending_session is Some && before.pending_session is None
                ==> after.pending_session == Some(session) && after.screen is SetPassphrase
        },
{
}

/// Refreshed tokens are the ones that the client works with from there on, that it saves and that it
/// refreshes next; its keys and its identity stay.
pub proof fn refreshed_tokens_are_used(
    before: App,
    session: Session,
    access_token: String,
    refresh_token: String,
    expires_at: i64,
    after: App,
    effects: Seq<Effect>,
)
    requires
        before.current_session == Some(session),
        on_refresh(
            before,
            TokenRefreshMsg::Refreshed { access_token, refresh_token, expires_at },
            after,
            effects,
        ),
    ensures
        after.access_token@ == access_token@,
        after.current_session matches Some(s) && s.access_token@ == access_token@ && s.refresh_token@
            == refresh_token@ && s.expires_at == expires_at && s.device_id@ == session.device_id@
            && s.user_id@ == session.user_id@ && s.signing_key_hex@ == session.signing_key_hex@
            && s.identity_key_hex@ == session.identity_key_hex@ && s.spk_key_hex@
            == session.spk_key_hex@ && s.spk_sig_hex@ == session.spk_sig_hex@,
        effects.len() >= 1,
        effects[0] matches Effect::StartTokenRefresh {
            device_id,
            refresh_token: r,
            expires_at: e,
        } && device_id@ == session.device_id@ && r@ == refresh_token@ && e == expires_at,
        forall|i: int|
            0 <= i < effects.len() ==> ((#[trigger] effects[i]) matches Effect::SaveQuietly {
                session: saved,
                encrypted,
            } ==> Some(saved) == after.current_session && encrypted == (before.session_key is Some)),
        (before.session_key is Some || before.no_encrypt) <==> (exists|i: int|
            0 <= i < effects.len() && (#[trigger] effects[i]) is SaveQuietly),
{
    if before.session_key is Some || before.no_encrypt {
        assert(effects[1] is SaveQuietly);
    }
}

/// Where a refresh fails, the device authenticates itself again with the session in use, and goes on
/// with what it had in the meantime.
pub proof fn failed_refresh_leads_to_authentication(
    before: App,
    session: Session,
    reason: String,
    after: App,
    effects: Seq<Effect>,
)
    requires
        before.current_session == Some(session),
        on_refresh(before, TokenRefreshMsg::Failed(reason), after, effects),
    ensures
        after == before,
        effects.len() == 1,
        effects[0] matches Effect::Authenticate { session: s, again } && s == session && again,
{
}

/// A token that is waited for is still good for five minutes when the wait is over, and once the wait
/// is over there is none left; the wait gets shorter by the time that passes.
pub proof fn tokens_are_refreshed_in_time(expires_at: i64, now: i64, passed: int)
    requires
        now >= 0,
        0 <= passed <= refresh_wait(expires_at, now),
        now + passed <= i64::MAX,
    ensures
        refresh_wait(expires_at, now) > 0 ==> now + refresh_wait(expires_at, now) + 300
            == expires_at,
        refresh_wait(expires_at, now) == 0 <==> expires_at <= now + 300,
        refresh_wait(expires_at, (now + passed) as i64) == refresh_wait(expires_at, now) - passed,
{
}

/// A failed authentication never lets anyone in: neither the contacts are shown nor anything is
/// started, and the keys and the session stay as they were.
pub proof fn failed_authentication_starts_nothing(
    before: App,
    msg: String,
    after: App,
    effects: Seq<Effect>,
)
    requires
        on_auth(before, AuthMsg::Failure(msg), after, effects),
    ensures
        after.screen is Onboarding || after.screen == Screen::AuthError(msg),
        after.screen is Onboarding && msg@ != "no_session"@ ==> before.session_key is None,
        after.session_key == before.session_key,
        after.current_session == before.current_session,
        after.access_token == before.access_token,
        !after.ticking,
        forall|i: int| 0 <= i < effects.len() ==> (#[trigger] effects[i]) is StopTicker,
        effects.len() == 0 <==> !before.ticking,
{
}

// ── Passphrase ───────────────────────────────────────────────────────────────

/// A session that was protected with a passphrase is opened with the same passphrase: its text comes
/// out, the database key is the one that was in use, and the device authenticates itself with the
/// session that was read.
pub proof fn passphrase_opens_what_it_protected(
    enter: KeyEvent,
    fresh: Fresh,
    a0: App,
    session: Session,
    a1: App,
    protect: Seq<Effect>,
    purpose: SavePurpose,
    a2: App,
    start: Seq<Effect>,
    enc: EncryptedSession,
    text: Seq<u8>,
    b0: App,
    b1: App,
    ask: Seq<Effect>,
    b2: App,
    parse: Seq<Effect>,
    read: Session,
    b3: App,
    login: Seq<Effect>,
)
    requires
        enter.code == KeyCode::Enter && enter.pressed,
        a0.screen is SetPassphrase && a0.pending_session == Some(session),
        0 < encode_utf8(a0.unlock_screen.passphrase@).len() <= 0xffff_ffff,
        on_key(a0, enter, fresh, a1, protect),
        protect[0] matches Effect::SaveSession { purpose: p, .. } ==> p == purpose,
        on_reply(
            a1,
            Reply::Saved { session, purpose, result: Ok::<(), String>(()) },
            a2,
            start,
        ),
        a2.session_key matches Some(k) ==> opened_session(enc, k.keys.session@) == Ok::<
            Seq<u8>,
            ConfigError,
        >(text) && stored_salt(SessionFile::Encrypted(enc)) == Ok::<Option<Seq<u8>>, ConfigError>(
            Some(k.master_salt@),
        ),
        b0.screen is Unlock && b0.unlock_screen.passphrase@ == a0.unlock_screen.passphrase@,
        on_key(b0, enter, fresh, b1, ask),
        ask[0] matches Effect::ReadSession { passphrase } ==> on_reply(
            b1,
            Reply::SessionRead { passphrase, file: SessionFile::Encrypted(enc) },
            b2,
            parse,
        ),
        on_reply(b2, Reply::SessionParsed(Ok::<Session, String>(read)), b3, login),
    ensures
        protect.len() == 1,
        protect[0] matches Effect::SaveSession { session: s, purpose: SavePurpose::Setup { encrypted } }
            && s == session && encrypted,
        a2.session_key is Some && a2.pending_key is None && a2.pending_session is None,
        ask.len() == 1 && ask[0] is ReadSession,
        parse.len() == 1,
        parse[0] matches Effect::ParseSession { text: t } && t@ == text,
        b3.session_key matches Some(k) && k.keys.session@ == (a2.session_key->0).keys.session@
            && k.keys.database@ == (a2.session_key->0).keys.database@ && k.master_salt@
            == (a2.session_key->0).master_salt@,
        login.len() == 1,
        login[0] matches Effect::Authenticate { session: s, again } && s == read && !again,
        a1.unlock_screen.passphrase@ == ""@ && b1.unlock_screen.passphrase@ == ""@,
{
}

/// A session without a passphrase is saved in plain text, and the client remembers that nothing is to
/// be encrypted.
pub proof fn empty_passphrase_turns_encryption_off(
    enter: KeyEvent,
    fresh: Fresh,
    a0: App,
    session: Session,
    a1: App,
    protect: Seq<Effect>,
    purpose: SavePurpose,
    a2: App,
    start: Seq<Effect>,
)
    requires
        enter.code == KeyCode::Enter && enter.pressed,
        a0.screen is SetPassphrase && a0.pending_session == Some(session),
        encode_utf8(a0.unlock_screen.passphrase@).len() == 0,
        on_key(a0, enter, fresh, a1, protect),
        protect[0] matches Effect::SaveSession { purpose: p, .. } ==> p == purpose,
        on_reply(
            a1,
            Reply::Saved { session, purpose, result: Ok::<(), String>(()) },
            a2,
            start,
        ),
    ensures
        protect.len() == 1,
        protect[0] matches Effect::SaveSession { session: s, purpose: SavePurpose::Setup { encrypted } }
            && s == session && !encrypted,
        a2.no_encrypt,
        a2.session_key == a0.session_key,
{
}

/// A new session that could not be saved is not lost: it waits for the passphrase again, no key is
/// kept for it, and the user is told why.
pub proof fn unsaved_session_waits(
    before: App,
    session: Session,
    encrypted: bool,
    reason: String,
    after: App,
    effects: Seq<Effect>,
)
    requires
        on_reply(
            before,
            Reply::Saved {
                session,
                purpose: SavePurpose::Setup { encrypted },
                result: Err::<(), String>(reason),
            },
            after,
            effects,
        ),
    ensures
        after.pending_session == Some(session),
        after.pending_key is None,
        after.session_key == before.session_key,
        after.screen == before.screen,
        after.unlock_screen.error is Some && crate::text::occurs_in(
            reason@,
            after.unlock_screen.error->0@,
        ),
        effects.len() == 0,
{
    let said = after.unlock_screen.error->0@;
    let n = "Save failed: "@.len() as int;
    assert(said.subrange(n, n + reason@.len()) =~= reason@);
    assert(crate::text::stands_at(said, reason@, n));
}

/// A session that cannot be opened, since the passphrase is another one or the file is damaged, starts
/// nothing and leaves all keys as they were; the user is told on the same screen.
pub proof fn closed_session_starts_nothing(
    before: App,
    passphrase: crate::secret::SecretBytes,
    enc: EncryptedSession,
    salt: Seq<u8>,
    after: App,
    effects: Seq<Effect>,
)
    requires
        stored_salt(SessionFile::Encrypted(enc)) == Ok::<Option<Seq<u8>>, ConfigError>(Some(salt)),
        opened_session(enc, crate::config::session_key_of(passphrase@, salt)) is Err,
        on_reply(
            before,
            Reply::SessionRead { passphrase, file: SessionFile::Encrypted(enc) },
            after,
            effects,
        ),
    ensures
        effects.len() == 0,
        after.session_key == before.session_key,
        after.pending_key == before.pending_key,
        after.screen == before.screen,
        after.unlock_screen.error is Some,
{
}

/// The database is opened with a key exactly where the session is under one.
pub proof fn database_is_protected_like_the_session(before: App, after: App, effects: Seq<Effect>)
    requires
        on_reply(before, Reply::ClientBuilt(Ok::<(), String>(())), after, effects),
    ensures
        after == before,
        effects.len() == 1,
        effects[0] matches Effect::OpenStorage { encrypted } && (encrypted <==> before.session_key
            is Some),
{
}

// ── Start ────────────────────────────────────────────────────────────────────

/// A session that is under a passphrase is asked for it before anything else is done; a plain one is
/// restored at once, and without a session, or with one that cannot be read, the first run begins.
pub proof fn start_goes_by_the_saved_session(
    file: SessionFile,
    before: App,
    after: App,
    effects: Seq<Effect>,
)
    requires
        on_startup(before, state_of(file), after, effects),
    ensures
        after.screen is Unlock <==> file is Encrypted,
        after.screen is Connecting <==> file is Other,
        after.screen is Onboarding <==> (file is Absent || file is Unreadable),
        file is Other <==> effects.len() == 1 && effects[0] is RestoreFromDisk,
        file is Encrypted ==> effects.len() == 0,
        after.session_key == before.session_key && after.current_session == before.current_session,
{
}

/// A session is cleared wherever it may be: both the place that it is saved in and the older place that
/// it is moved from.
pub proof fn session_is_cleared_wherever_it_is(
    base: Seq<char>,
    old_exists: bool,
    new_exists: bool,
    path: String,
    from: Option<String>,
    now: String,
    older: String,
)
    requires
        is_session_path(base, old_exists, new_exists, path, from),
        are_session_places(base, now, older),
    ensures
        path@ == now@,
        from matches Some(f) ==> f@ == older@,
        from is Some <==> old_exists && !new_exists,
{
}

/// The core is made exactly where all four keys of a session can be read; otherwise nothing is done and
/// the user is told what is wrong with one of those that cannot.
pub proof fn unreadable_key_starts_nothing(
    s: Session,
    before: Seq<char>,
    after: Seq<char>,
    effects: Seq<Effect>,
)
    requires
        core_start(s, before, after, effects),
    ensures
        ({
            let all = is_hex_text(s.identity_key_hex@) && is_hex_text(s.signing_key_hex@)
                && is_hex_text(s.spk_key_hex@) && is_hex_text(s.spk_sig_hex@);
            &&& effects.len() == 1 <==> all
            &&& effects.len() <= 1
            &&& all ==> after == before
            &&& !all ==> exists|t: Seq<char>|
                (t == s.identity_key_hex@ || t == s.signing_key_hex@ || t == s.spk_key_hex@ || t
                    == s.spk_sig_hex@) && !is_hex_text(t) && after
                    == "Orchestrator key decode error: "@ + #[trigger] hex_error(t)
        }),
{
    assert(!is_hex_text(s.identity_key_hex@) ==> after == "Orchestrator key decode error: "@
        + hex_error(s.identity_key_hex@));
    if is_hex_text(s.identity_key_hex@) {
        assert(!is_hex_text(s.signing_key_hex@) ==> after == "Orchestrator key decode error: "@
            + hex_error(s.signing_key_hex@));
        if is_hex_text(s.signing_key_hex@) {
            assert(!is_hex_text(s.spk_key_hex@) ==> after == "Orchestrator key decode error: "@
                + hex_error(s.spk_key_hex@));
            if is_hex_text(s.spk_key_hex@) {
                assert(!is_hex_text(s.spk_sig_hex@) ==> after == "Orchestrator key decode error: "@
                    + hex_error(s.spk_sig_hex@));
            }
        }
    }
}

/// Who has signed in is told under which ID, as long as nothing went wrong with the keys.
pub proof fn user_is_greeted_by_id(before: App, s: AuthSuccess, after: App, effects: Seq<Effect>)
    requires
        on_success(before, s, after, effects),
        effects.len() > 0,
    ensures
        after.status@ == "Connected as "@ + s.user_id@,
        after.connection is Connected,
        s.pending_save is None <==> effects[0] is BuildClient,
        s.pending_save is None ==> after.screen is Main,
{
}

/// Where a session that was in use could not be saved after an authentication, the user is told why and
/// nothing is started; the keys stay.
pub proof fn unsaved_login_starts_nothing(
    before: App,
    session: Session,
    encrypted: bool,
    reason: String,
    after: App,
    effects: Seq<Effect>,
)
    requires
        on_reply(
            before,
            Reply::Saved {
                session,
                purpose: SavePurpose::Login { encrypted },
                result: Err::<(), String>(reason),
            },
            after,
            effects,
        ),
    ensures
        after.screen matches Screen::AuthError(msg) && msg@ == "Save failed: "@ + reason@,
        effects.len() == 0,
        after.session_key == before.session_key && after.current_session == before.current_session,
{
}

/// Without a session there is nothing that tokens could belong to: new ones are not taken over, and
/// where a refresh fails nobody is authenticated.
pub proof fn tokens_need_a_session(
    before: App,
    msg: TokenRefreshMsg,
    after: App,
    effects: Seq<Effect>,
)
    requires
        before.current_session is None,
        on_refresh(before, msg, after, effects),
    ensures
        effects.len() == 0,
        after.access_token == before.access_token,
        after.current_session is None,
        msg is Failed ==> after.status@ == "Device re-auth failed: no session in memory"@,
        msg is Refreshed ==> after == before,
{
}

/// The tokens that the server answers with are the ones that are put to use, each in its place.
pub proof fn refreshed_tokens_come_from_the_server(
    access_token: String,
    refresh_token: String,
    expires_at: i64,
    msg: TokenRefreshMsg,
    before: App,
    session: Session,
    after: App,
    effects: Seq<Effect>,
)
    requires
        is_outcome(
            Ok::<(String, Option<String>, i64), String>(
                (access_token, Some(refresh_token), expires_at),
            ),
            msg,
        ),
        before.current_session == Some(session),
        on_refresh(before, msg, after, effects),
    ensures
        after.access_token@ == access_token@,
        after.current_session matches Some(s) && s.access_token@ == access_token@ && s.refresh_token@
            == refresh_token@ && s.expires_at == expires_at,
{
}

} // verus!
