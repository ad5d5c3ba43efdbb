//! What the server is asked for and what it is told.

use vstd::prelude::*;

use crate::auth::{
    is_authenticated, is_new_device, is_restored, AuthResult, AuthTokens, DeviceKeys,
    DevicePublicKeys,
};
use crate::app::{
    is_configured, is_success, on_auth, transport_name, App, AppConfig, AuthMsg, Effect, Overrides,
};
use crate::config::{Config, Session, TransportConfig};
use crate::engine_adapter::{
    configures, event_of, host_and_port, EngineConfig, EngineEvent, PlatformAction,
};
use crate::grpc::{
    are_headers, asks_to_join, asks_to_link, asks_to_register, asks_to_store, is_join_result,
    is_plan, ChannelPlan, JoinPollResult, JoinRequest, JoinStatus, LinkRequest, PowSolution,
    RegisterRequest, UploadPreKeysRequest,
};

verus! {

// ── Transport ────────────────────────────────────────────────────────────────

/// Obfuscated traffic goes over the bridge and nowhere else: both forms of it, with the same bridge,
/// are opened alike, to the server behind `https://`, and where the build has no such transport none
/// is opened in its place.
pub proof fn obfuscated_traffic_goes_over_the_bridge(
    server: Seq<char>,
    bridge_line: String,
    tls_server_name: String,
    ice: bool,
    plain: ChannelPlan,
    tls: ChannelPlan,
)
    requires
        is_plan(server, TransportConfig::Obfs4 { bridge_line }, ice, plain),
        is_plan(server, TransportConfig::Obfs4Tls { bridge_line, tls_server_name }, ice, tls),
    ensures
        plain is Ice <==> ice,
        plain is Unsupported <==> !ice,
        tls is Ice <==> plain is Ice,
        tls is Unsupported <==> plain is Unsupported,
        ice ==> plain->bridge_line@ == bridge_line@ && tls->bridge_line@ == bridge_line@,
        ice ==> plain->Ice_url@ == "https://"@ + server && tls->Ice_url@ == plain->Ice_url@,
{
}

/// Behind a front, the server itself is not addressed: the plan is the same for every server. Without
/// any transport it is addressed as it is named.
pub proof fn front_hides_the_server(
    server: Seq<char>,
    other: Seq<char>,
    cdn_endpoint: String,
    sni_host: String,
    real_host: String,
    ice: bool,
    to_server: ChannelPlan,
    to_other: ChannelPlan,
    direct: ChannelPlan,
)
    requires
        is_plan(server, TransportConfig::CdnFront { cdn_endpoint, sni_host, real_host }, ice, to_server),
        is_plan(other, TransportConfig::CdnFront { cdn_endpoint, sni_host, real_host }, ice, to_other),
        is_plan(server, TransportConfig::Direct, ice, direct),
    ensures
        to_server matches ChannelPlan::Direct { url } && url@ == cdn_endpoint@,
        to_other matches ChannelPlan::Direct { url } && url@ == cdn_endpoint@,
        direct matches ChannelPlan::Direct { url } && url@ == server,
{
}

/// Each transport has a name of its own, whatever its addresses are.
pub proof fn transports_have_names_of_their_own(a: TransportConfig, b: TransportConfig)
    ensures
        transport_name(a) == transport_name(b) <==> (a is Direct <==> b is Direct) && (a is Obfs4
            <==> b is Obfs4) && (a is Obfs4Tls <==> b is Obfs4Tls) && (a is CdnFront <==> b
            is CdnFront),
        a is Direct ==> transport_name(a) == "direct"@,
        a is CdnFront ==> transport_name(a) == "cdn-front"@,
        a is Obfs4Tls ==> transport_name(a) == "obfs4+tls"@,
{
    reveal_strlit("direct");
    reveal_strlit("obfs4");
    reveal_strlit("obfs4+tls");
    reveal_strlit("cdn-front");
    assert("direct"@.len() == 6 && "obfs4"@.len() == 5);
    assert("obfs4+tls"@.len() == 9 && "obfs4+tls"@[0] == 'o');
    assert("cdn-front"@.len() == 9 && "cdn-front"@[0] == 'c');
    if transport_name(a) == transport_name(b) {
        assert(transport_name(a).len() == transport_name(b).len());
        assert(transport_name(a)[0] == transport_name(b)[0]);
    }
}

/// What is said on the command line goes over the file, each word for its own setting; what is not
/// said there stays as the file has it. Encryption is off where anyone asks for that.
pub proof fn command_line_goes_over_the_file(
    file: Config,
    cli: Overrides,
    env_no_encrypt: bool,
    r: AppConfig,
)
    requires
        is_configured(file, cli, env_no_encrypt, r),
    ensures
        cli.server is None ==> r.server_url@ == file.server@,
        cli.server matches Some(s) ==> r.server_url@ == s@,
        cli.bridge is None ==> r.transport == file.transport,
        cli.bridge matches Some(b) ==> match r.transport {
            TransportConfig::Obfs4 { bridge_line } => cli.bridge_tls_sni is None && bridge_line@ == b@,
            TransportConfig::Obfs4Tls { bridge_line, tls_server_name } => bridge_line@ == b@ && (
            cli.bridge_tls_sni matches Some(sni) && tls_server_name@ == sni@),
            _ => false,
        },
        !r.no_encrypt <==> !cli.no_encrypt && !env_no_encrypt,
        r.headless <==> cli.headless,
        r.pq_active <==> cli.post_quantum,
{
}

// ── Devices ──────────────────────────────────────────────────────────────────

/// A new device is introduced alike however it comes in: when it registers, when it is linked and when
/// it asks to join, the server is told the same keys under the same ID. A link or a name is that of
/// the user, and the solution is that of the challenge.
pub proof fn devices_are_introduced_alike(
    keys: DevicePublicKeys,
    device_id: Seq<char>,
    username: Option<&str>,
    pow: PowSolution,
    link_token: Seq<char>,
    name: Seq<char>,
    platform: Seq<char>,
    registered: RegisterRequest,
    linked: LinkRequest,
    joined: JoinRequest,
)
    requires
        asks_to_register(registered, username, device_id, keys, pow),
        asks_to_link(linked, link_token, device_id, keys),
        asks_to_join(joined, device_id, keys, name, platform),
    ensures
        registered.device_id@ == device_id && linked.device_id@ == device_id
            && joined.pending_device_id@ == device_id,
        registered.public_keys == linked.public_keys,
        joined.identity_public_b64@ == linked.public_keys.identity_public@,
        joined.verifying_key_b64@ == linked.public_keys.verifying_key@,
        joined.signed_prekey_public_b64@ == linked.public_keys.signed_prekey_public@,
        joined.signed_prekey_signature_b64@ == linked.public_keys.signed_prekey_signature@,
        linked.public_keys == keys,
        linked.link_token@ == link_token,
        username matches Some(u) ==> registered.username is Some && (registered.username->0)@ == u@,
        username is None ==> registered.username is None,
        registered.pow_solution.challenge@ == pow.challenge@,
        registered.pow_solution.nonce == pow.nonce,
        registered.pow_solution.hash@ == pow.hash@,
{
}

/// A device is let into an account exactly where the request was approved and tokens came with it, and
/// then with those tokens; an approval without tokens is an error, and anything that is not decided is
/// pending.
pub proof fn only_an_approval_lets_a_device_in(
    status: Option<JoinStatus>,
    tokens: Option<AuthTokens>,
    r: Result<JoinPollResult, String>,
)
    requires
        is_join_result(status, tokens, r),
    ensures
        (r is Ok && r->Ok_0 is Approved) <==> (status == Some(JoinStatus::Approved) && tokens is Some),
        r matches Ok(JoinPollResult::Approved(t)) ==> tokens == Some(t),
        r is Err <==> (status == Some(JoinStatus::Approved) && tokens is None),
        (r is Ok && r->Ok_0 is Rejected) <==> status == Some(JoinStatus::Rejected),
        (r is Ok && r->Ok_0 is Expired) <==> status == Some(JoinStatus::Expired),
{
}

/// Every one-time pre-key is stored under its own ID, none is left out, and those that the server has
/// already stay there.
pub proof fn every_pre_key_is_stored(
    device_id: Seq<char>,
    keys: Seq<(u32, Vec<u8>)>,
    r: UploadPreKeysRequest,
)
    requires
        asks_to_store(r, device_id, keys),
    ensures
        r.device_id@ == device_id,
        !r.replace_existing,
        r.pre_keys@.len() == keys.len(),
        forall|i: int|
            0 <= i < keys.len() ==> (#[trigger] r.pre_keys@[i]).key_id == keys[i].0,
        forall|i: int|
            0 <= i < keys.len() ==> (#[trigger] r.pre_keys@[i]).public_key@ == keys[i].1@,
{
}

/// The token and the user of an authenticated request can be read from its headers: requests with
/// equal headers have the same token and the same user.
pub proof fn headers_tell_token_and_user(
    a: Seq<(&'static str, String)>,
    token_a: Seq<char>,
    user_a: Seq<char>,
    b: Seq<(&'static str, String)>,
    token_b: Seq<char>,
    user_b: Seq<char>,
)
    requires
        are_headers(a, token_a, user_a),
        are_headers(b, token_b, user_b),
    ensures
        a.len() == 2 && a[0].0@ == "authorization"@ && a[1].0@ == "x-user-id"@,
        a[1].1@ == user_a,
        a[0].1@ == b[0].1@ <==> token_a == token_b,
        a[0].1@.skip("Bearer "@.len() as int) == token_a,
{
    let n = "Bearer "@.len() as int;
    assert(("Bearer "@ + token_a).skip(n) =~= token_a);
    assert(("Bearer "@ + token_b).skip(n) =~= token_b);
}

// ── Signing in ───────────────────────────────────────────────────────────────

/// Who signs in with a session is the user and the device of that session, with the tokens that the
/// server gave, and the keys of the session stay in use. The session that is saved is the one that is
/// in use.
pub proof fn sign_in_is_for_the_user_of_the_session(
    session: Session,
    tokens: AuthTokens,
    result: AuthResult,
    updated: Session,
    msg: AuthMsg,
    before: App,
    after: App,
    effects: Seq<Effect>,
)
    requires
        is_authenticated(session, tokens, result) && result.session == Some(updated)
            || is_restored(session, tokens, result, updated),
        is_success(result, updated, msg),
        on_auth(before, msg, after, effects),
    ensures
        after.user_id@ == session.user_id@,
        after.device_id@ == session.device_id@,
        after.access_token@ == tokens.access_token@,
        after.current_session matches Some(s) && s.access_token@ == tokens.access_token@
            && s.refresh_token@ == tokens.refresh_token@ && s.expires_at == tokens.expires_at
            && s.signing_key_hex@ == session.signing_key_hex@ && s.identity_key_hex@
            == session.identity_key_hex@ && s.spk_key_hex@ == session.spk_key_hex@ && s.spk_sig_hex@
            == session.spk_sig_hex@ && s.user_id@ == session.user_id@ && s.device_id@
            == session.device_id@,
        forall|i: int|
            0 <= i < effects.len() ==> ((#[trigger] effects[i]) matches Effect::SaveSession {
                session: saved,
                ..
            } ==> Some(saved) == after.current_session),
        after.settings_screen.user_id@ == session.user_id@,
        after.settings_screen.device_id@ == session.device_id@,
{
}

/// A new device is signed in as the user that the server names, under the ID that it registered with,
/// and with the session that holds its keys.
pub proof fn new_device_is_signed_in(
    keys: DeviceKeys,
    signature: Seq<u8>,
    device_id: Seq<char>,
    tokens: AuthTokens,
    result: AuthResult,
    session: Session,
    msg: AuthMsg,
    before: App,
    after: App,
    effects: Seq<Effect>,
)
    requires
        is_new_device(result, keys, signature, device_id, tokens),
        result.session == Some(session),
        is_success(result, session, msg),
        on_auth(before, msg, after, effects),
    ensures
        after.user_id@ == tokens.user_id@,
        after.device_id@ == device_id,
        after.access_token@ == tokens.access_token@,
        after.current_session matches Some(s) && s == session && s.user_id@ == tokens.user_id@
            && s.device_id@ == device_id && s.access_token@ == tokens.access_token@
            && s.refresh_token@ == tokens.refresh_token@ && s.expires_at == tokens.expires_at,
        effects.len() > 0 && effects[0] is StartTokenRefresh,
        before.session_key is None && !before.no_encrypt ==> after.screen is SetPassphrase
            && after.pending_session == Some(session),
{
}

// ── The engine ───────────────────────────────────────────────────────────────

/// Every word of the engine reaches the interface as it is: each value of an action stands in the
/// event of the same name, and only what a terminal has no use for is dropped.
pub proof fn events_carry_what_the_engine_says(action: PlatformAction)
    ensures
        event_of(action) is None <==> action is Unneeded,
        action matches PlatformAction::SetAuthToken {
            user_id,
            access_token,
            refresh_token,
            expires_at,
        } ==> (event_of(action) matches Some(EngineEvent::AuthTokenSet {
            user_id: u,
            access_token: a,
            refresh_token: r,
            expires_at: e,
        }) && u@ == user_id@ && a@ == access_token@ && r@ == refresh_token@ && e == expires_at),
        action matches PlatformAction::RegistrationComplete { user_id, device_id } ==> (event_of(
            action,
        ) matches Some(EngineEvent::RegistrationComplete { user_id: u, device_id: d }) && u@
            == user_id@ && d@ == device_id@),
        action is ClearAuth <==> event_of(action) == Some(EngineEvent::ClearAuth),
        action matches PlatformAction::ConnectionStateChanged { connected } ==> (event_of(
            action,
        ) matches Some(EngineEvent::ConnectionStateChanged { connected: c }) && c == connected),
        action matches PlatformAction::NetworkError { message } ==> (event_of(action) matches Some(
            EngineEvent::NetworkError { message: m },
        ) && m@ == message@),
        action matches PlatformAction::StreamReady { stream_cursor } ==> (event_of(
            action,
        ) matches Some(EngineEvent::StreamReady { stream_cursor: c }) && c == stream_cursor),
        action matches PlatformAction::StreamError { message } ==> (event_of(action) matches Some(
            EngineEvent::StreamError { message: m },
        ) && m@ == message@),
        action matches PlatformAction::PreKeyBundleReady { user_id, bundle_bytes } ==> (event_of(
            action,
        ) matches Some(EngineEvent::PreKeyBundleReady { user_id: u, bundle_bytes: b }) && u@
            == user_id@ && b@ == bundle_bytes@),
        action matches PlatformAction::OtpksUploaded { uploaded, server_count } ==> (event_of(
            action,
        ) matches Some(EngineEvent::OtpksUploaded { uploaded: u, server_count: s }) && u == uploaded
            && s == server_count),
        action matches PlatformAction::PreKeyCountUpdated { count, recommended_minimum } ==> (
        event_of(action) matches Some(EngineEvent::PreKeyCountUpdated {
            count: c,
            recommended_minimum: m,
        }) && c == count && m == recommended_minimum),
        action matches PlatformAction::SpkRotated { key_id } ==> (event_of(action) matches Some(
            EngineEvent::SpkRotated { key_id: k },
        ) && k == key_id),
        action matches PlatformAction::LoadKeychain { key } ==> (event_of(action) matches Some(
            EngineEvent::LoadKeychain { key: k },
        ) && k@ == key@),
        action matches PlatformAction::SaveKeychain { key, data } ==> (event_of(
            action,
        ) matches Some(EngineEvent::SaveKeychain { key: k, data: d }) && k@ == key@ && d@ == data@),
        action matches PlatformAction::SessionError { contact_id, message } ==> (event_of(
            action,
        ) matches Some(EngineEvent::SessionError { contact_id: c, message: m }) && c@ == contact_id@
            && m@ == message@),
        action matches PlatformAction::UpdateMessageStatus { local_id, status } ==> (event_of(
            action,
        ) matches Some(EngineEvent::UpdateMessageStatus { local_id: l, status: s }) && l@
            == local_id@ && s == status),
        action matches PlatformAction::DisplayMessage {
            message_id,
            plaintext,
            sender_id,
            conversation_id,
            timestamp,
        } ==> (event_of(action) matches Some(EngineEvent::DisplayMessage {
            message_id: m,
            plaintext: p,
            sender_id: s,
            conversation_id: c,
            timestamp: t,
        }) && m@ == message_id@ && p@ == plaintext@ && s@ == sender_id@ && c@ == conversation_id@
            && t == timestamp),
{
}

/// Different words of the engine are never taken for one another.
pub proof fn different_actions_give_different_events(a: PlatformAction, b: PlatformAction)
    requires
        event_of(a) == event_of(b),
    ensures
        a == b,
{
}

/// The engine is configured for the server and the identity that are in use, with the token and the
/// keys as they are, and always verifies certificates.
pub proof fn engine_gets_the_identity(
    r: EngineConfig,
    server_url: Seq<char>,
    user_id: &str,
    device_id: &str,
    access_token: Option<&str>,
    keys: Seq<u8>,
)
    requires
        configures(r, server_url, Some(user_id), Some(device_id), access_token, keys),
    ensures
        r.server_host@ == host_and_port(server_url).0,
        r.server_port == host_and_port(server_url).1,
        r.my_user_id@ == user_id@,
        r.my_device_id@ == device_id@,
        access_token is None <==> r.auth_token is None,
        access_token matches Some(t) ==> (r.auth_token->0)@ == t@,
        r.keys_cfe_data@ == keys,
        r.verify_certs,
        !r.use_masque,
{
}

} // verus!
