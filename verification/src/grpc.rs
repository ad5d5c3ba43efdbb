//! Requests to the server and what its answers mean.

use vstd::prelude::*;

use serde_json::{Number, Value};

use crate::auth::{AuthTokens, DevicePublicKeys};
use crate::config::TransportConfig;
use crate::screens::contact_search::SearchResult;
use crate::text::{cat2, cat5};

verus! {

/// How a channel to the server is opened.
#[derive(Debug)]
pub enum ChannelPlan {
    /// TLS to an address.
    Direct { url: String },
    /// obfs4 to a relay.
    Ice { url: String, bridge_line: String },
    /// Not at all: the build has no obfs4 transport.
    Unsupported,
}

/// What is said where the build has no obfs4 transport.
pub const ICE_MISSING: &'static str =
    "Transport mode requires the 'ice' feature.\nRebuild with: cargo build --features ice";

/// Whether a plan is the one for a server and a transport.
pub open spec fn is_plan(
    server: Seq<char>,
    transport: TransportConfig,
    ice: bool,
    r: ChannelPlan,
) -> bool {
    match transport {
        TransportConfig::Direct => r is Direct && r->Direct_url@ == server,
        TransportConfig::CdnFront { cdn_endpoint, .. } => r is Direct && r->Direct_url@
            == cdn_endpoint@,
        TransportConfig::Obfs4 { bridge_line } => if ice {
            r is Ice && r->Ice_url@ == "https://"@ + server && r->bridge_line@ == bridge_line@
        } else {
            r is Unsupported
        },
        TransportConfig::Obfs4Tls { bridge_line, .. } => if ice {
            r is Ice && r->Ice_url@ == "https://"@ + server && r->bridge_line@ == bridge_line@
        } else {
            r is Unsupported
        },
    }
}

/// How a channel to a server is opened for a transport. Domain fronting goes to the CDN, which
/// passes everything on to the real host. obfs4 needs a build with that transport.
pub fn channel_plan(server: &str, transport: &TransportConfig, ice: bool) -> (r: ChannelPlan)
    ensures
        is_plan(server@, *transport, ice, r),
{
    match transport {
        TransportConfig::Direct => ChannelPlan::Direct { url: server.to_string() },
        TransportConfig::CdnFront { cdn_endpoint, .. } => ChannelPlan::Direct {
            url: cdn_endpoint.clone(),
        },
        TransportConfig::Obfs4 { bridge_line } | TransportConfig::Obfs4Tls { bridge_line, .. } => {
            if ice {
                ChannelPlan::Ice {
                    url: cat2("https://", server),
                    bridge_line: bridge_line.clone(),
                }
            } else {
                ChannelPlan::Unsupported
            }
        },
    }
}

/// What the server says of a request to join an account.
#[derive(Debug, Clone, Copy, PartialEq, Eq, Structural)]
pub enum JoinStatus {
    Pending,
    Approved,
    Rejected,
    Expired,
}

/// What became of a request to join an account.
#[derive(Debug)]
pub enum JoinPollResult {
    Pending,
    Approved(AuthTokens),
    Rejected,
    Expired,
}

/// What is said where an approval comes without tokens.
pub const APPROVED_WITHOUT_TOKENS: &'static str = "APPROVED status but no tokens in response";

/// Whether a result is what became of a request to join an account.
pub open spec fn is_join_result(
    status: Option<JoinStatus>,
    tokens: Option<AuthTokens>,
    r: Result<JoinPollResult, String>,
) -> bool {
    match status {
        Some(JoinStatus::Approved) => match tokens {
            Some(t) => r == Ok::<_, String>(JoinPollResult::Approved(t)),
            None => r is Err && r->Err_0@ == APPROVED_WITHOUT_TOKENS@,
        },
        Some(JoinStatus::Rejected) => r == Ok::<_, String>(JoinPollResult::Rejected),
        Some(JoinStatus::Expired) => r == Ok::<_, String>(JoinPollResult::Expired),
        _ => r == Ok::<_, String>(JoinPollResult::Pending),
    }
}

/// What became of a request to join an account. A status that is not known counts as pending, and
/// an approval must come with tokens.
pub fn join_poll_result(status: Option<JoinStatus>, tokens: Option<AuthTokens>) -> (r: Result<
    JoinPollResult,
    String,
>)
    ensures
        is_join_result(status, tokens, r),
{
    match status {
        Some(JoinStatus::Approved) => match tokens {
            Some(t) => Ok(JoinPollResult::Approved(t)),
            None => Err(APPROVED_WITHOUT_TOKENS.to_string()),
        },
        Some(JoinStatus::Rejected) => Ok(JoinPollResult::Rejected),
        Some(JoinStatus::Expired) => Ok(JoinPollResult::Expired),
        Some(JoinStatus::Pending) | None => Ok(JoinPollResult::Pending),
    }
}

/// A request to join an account, to be approved on another device.
#[derive(Debug)]
pub struct JoinRequest {
    pub pending_device_id: String,
    pub identity_public_b64: String,
    pub verifying_key_b64: String,
    pub signed_prekey_public_b64: String,
    pub signed_prekey_signature_b64: String,
    pub device_name: String,
    pub platform: String,
}

/// Whether a request asks to join an account with the given keys.
pub open spec fn asks_to_join(
    r: JoinRequest,
    device_id: Seq<char>,
    keys: DevicePublicKeys,
    device_name: Seq<char>,
    platform: Seq<char>,
) -> bool {
    &&& r.pending_device_id@ == device_id
    &&& r.identity_public_b64 == keys.identity_public
    &&& r.verifying_key_b64 == keys.verifying_key
    &&& r.signed_prekey_public_b64 == keys.signed_prekey_public
    &&& r.signed_prekey_signature_b64 == keys.signed_prekey_signature
    &&& r.device_name@ == device_name
    &&& r.platform@ == platform
}

/// A request to join an account with the given keys.
pub fn join_request(
    device_id: &str,
    keys: &DevicePublicKeys,
    device_name: &str,
    platform: &str,
) -> (r: JoinRequest)
    ensures
        asks_to_join(r, device_id@, *keys, device_name@, platform@),
{
    JoinRequest {
        pending_device_id: device_id.to_string(),
        identity_public_b64: keys.identity_public.clone(),
        verifying_key_b64: keys.verifying_key.clone(),
        signed_prekey_public_b64: keys.signed_prekey_public.clone(),
        signed_prekey_signature_b64: keys.signed_prekey_signature.clone(),
        device_name: device_name.to_string(),
        platform: platform.to_string(),
    }
}

/// Whether these are the headers of an authenticated request.
pub open spec fn are_headers(
    headers: Seq<(&'static str, String)>,
    access_token: Seq<char>,
    user_id: Seq<char>,
) -> bool {
    &&& headers.len() == 2
    &&& headers[0].0@ == "authorization"@ && headers[0].1@ == "Bearer "@ + access_token
    &&& headers[1].0@ == "x-user-id"@ && headers[1].1@ == user_id
}

/// The headers of an authenticated request: the access token and the user that it belongs to.
pub fn bearer(access_token: &str, user_id: &str) -> (r: Vec<(&'static str, String)>)
    ensures
        are_headers(r@, access_token@, user_id@),
{
    let mut headers: Vec<(&'static str, String)> = Vec::new();
    headers.push(("authorization", cat2("Bearer ", access_token)));
    headers.push(("x-user-id", user_id.to_string()));
    headers
}

/// The server's answer to a search for a user.
#[derive(Debug)]
pub enum FindUserReply {
    /// The ID of the user.
    Found(String),
    /// There is no such user.
    NotFound,
    /// The search failed, with the message and the code of the failure.
    Failed { message: String, code: String },
}

/// Whether a result is what a search for a user gave.
pub open spec fn is_found(reply: FindUserReply, r: Result<Option<String>, String>) -> bool {
    match reply {
        FindUserReply::Found(id) => r == Ok::<_, String>(Some(id)),
        FindUserReply::NotFound => r is Ok && r->Ok_0 is None,
        FindUserReply::Failed { message, code } => r is Err && r->Err_0@
            == "FindUser RPC failed: "@ + message@ + " ("@ + code@ + ")"@,
    }
}

/// The ID of the user that was searched for: none where there is no such user, and an error where
/// the search failed.
pub fn find_user(reply: FindUserReply) -> (r: Result<Option<String>, String>)
    ensures
        is_found(reply, r),
{
    match reply {
        FindUserReply::Found(id) => Ok(Some(id)),
        FindUserReply::NotFound => Ok(None),
        FindUserReply::Failed { message, code } => Err(
            cat5("FindUser RPC failed: ", message.as_str(), " (", code.as_str(), ")"),
        ),
    }
}

/// Whether a search for a name shows the user that was found under that name, or nobody.
pub open spec fn are_results(
    query: Seq<char>,
    found: Option<String>,
    results: Seq<SearchResult>,
) -> bool {
    match found {
        Some(id) => {
            &&& results.len() == 1
            &&& results[0].user_id == id
            &&& results[0].username@ == query
            &&& results[0].display_name@ == query
        },
        None => results.len() == 0,
    }
}

/// What a search for a name shows: the user under that name, or nobody.
pub fn search_results(query: &str, found: Option<String>) -> (r: Vec<SearchResult>)
    ensures
        are_results(query@, found, r@),
{
    let mut results: Vec<SearchResult> = Vec::new();
    if let Some(user_id) = found {
        results.push(
            SearchResult {
                user_id,
                username: query.to_string(),
                display_name: query.to_string(),
            },
        );
    }
    results
}

// ── Registration ─────────────────────────────────────────────────────────────

/// The proof of work for a challenge of the server.
#[derive(Debug)]
pub struct PowSolution {
    pub challenge: String,
    pub nonce: u64,
    pub hash: String,
}

/// A request to register a new device.
#[derive(Debug)]
pub struct RegisterRequest {
    pub username: Option<String>,
    pub device_id: String,
    pub public_keys: DevicePublicKeys,
    pub pow_solution: PowSolution,
}

/// Whether a request asks to register a device.
pub open spec fn asks_to_register(
    r: RegisterRequest,
    username: Option<&str>,
    device_id: Seq<char>,
    public_keys: DevicePublicKeys,
    pow_solution: PowSolution,
) -> bool {
    &&& match username {
        Some(u) => r.username is Some && (r.username->0)@ == u@,
        None => r.username is None,
    }
    &&& r.device_id@ == device_id
    &&& r.public_keys == public_keys
    &&& r.pow_solution == pow_solution
}

/// A request to register a new device, with the solution of the challenge.
pub fn register_request(
    username: Option<&str>,
    device_id: &str,
    public_keys: DevicePublicKeys,
    challenge: String,
    nonce: u64,
    hash: String,
) -> (r: RegisterRequest)
    ensures
        asks_to_register(
            r,
            username,
            device_id@,
            public_keys,
            PowSolution { challenge, nonce, hash },
        ),
{
    RegisterRequest {
        username: match username {
            Some(u) => Some(u.to_string()),
            None => None,
        },
        device_id: device_id.to_string(),
        public_keys,
        pow_solution: PowSolution { challenge, nonce, hash },
    }
}

/// A request to link a new device to an account.
#[derive(Debug)]
pub struct LinkRequest {
    pub link_token: String,
    pub device_id: String,
    pub public_keys: DevicePublicKeys,
}

/// Whether a request asks to link a device to an account.
pub open spec fn asks_to_link(
    r: LinkRequest,
    link_token: Seq<char>,
    device_id: Seq<char>,
    public_keys: DevicePublicKeys,
) -> bool {
    &&& r.link_token@ == link_token
    &&& r.device_id@ == device_id
    &&& r.public_keys == public_keys
}

/// A request to link a new device to the account that a token belongs to.
pub fn link_request(link_token: &str, device_id: &str, public_keys: DevicePublicKeys) -> (r:
    LinkRequest)
    ensures
        asks_to_link(r, link_token@, device_id@, public_keys),
{
    LinkRequest {
        link_token: link_token.to_string(),
        device_id: device_id.to_string(),
        public_keys,
    }
}

// ── Pre-keys ─────────────────────────────────────────────────────────────────

/// The public keys of a contact, from which a session with it is started.
#[derive(Debug)]
pub struct PreKeyBundle {
    pub identity_key: Vec<u8>,
    pub signed_pre_key: Vec<u8>,
    pub signed_pre_key_signature: Vec<u8>,
    pub verifying_key: Vec<u8>,
    pub one_time_pre_key: Option<Vec<u8>>,
    pub one_time_pre_key_id: Option<u32>,
    pub spk_uploaded_at: i64,
    pub spk_rotation_epoch: u32,
}

/// A value in a JSON object.
#[derive(Debug)]
pub enum Json {
    /// An array of numbers.
    Bytes(Vec<u8>),
    /// A number.
    Number(u64),
    /// Nothing.
    Null,
}

/// What a value in a JSON object holds.
pub ghost enum JsonView {
    Bytes(Seq<u8>),
    Number(u64),
    Null,
}

impl View for Json {
    type V = JsonView;

    open spec fn view(&self) -> JsonView {
        match *self {
            Json::Bytes(b) => JsonView::Bytes(b@),
            Json::Number(n) => JsonView::Number(n),
            Json::Null => JsonView::Null,
        }
    }
}

/// The names and values of a JSON object.
pub open spec fn fields_view(fields: Seq<(&'static str, Json)>) -> Seq<(Seq<char>, JsonView)> {
    fields.map_values(|f: (&'static str, Json)| (f.0@, f.1@))
}

/// The text of a JSON object with fields, as `serde_json` writes it.
pub uninterp spec fn json_object(fields: Seq<(Seq<char>, JsonView)>) -> Seq<char>;

/// Calls `to_string` of `serde_json::Value`: the text of an object with fields depends on these
/// alone. What it looks like is not stated.
#[verifier::external_body]
fn json_text(fields: Vec<(&'static str, Json)>) -> (r: String)
    ensures
        r@ == json_object(fields_view(fields@)),
{
    let object: serde_json::Map<String, Value> = fields.into_iter().map(|(k, v)| {
        let value = match v {
            Json::Bytes(b) => Value::from(b),
            Json::Number(n) => Value::Number(Number::from(n)),
            Json::Null => Value::Null,
        };
        (k.to_string(), value)
    }).collect();
    Value::Object(object).to_string()
}

/// The number of the cryptographic suite of a bundle.
pub const SUITE_ID: u64 = 1;

/// The fields of a bundle as the messaging core reads them.
pub open spec fn bundle_fields(b: PreKeyBundle) -> Seq<(Seq<char>, JsonView)> {
    seq![
        ("identity_public"@, JsonView::Bytes(b.identity_key@)),
        ("signed_prekey_public"@, JsonView::Bytes(b.signed_pre_key@)),
        ("signature"@, JsonView::Bytes(b.signed_pre_key_signature@)),
        ("verifying_key"@, JsonView::Bytes(b.verifying_key@)),
        ("suite_id"@, JsonView::Number(SUITE_ID)),
        (
            "one_time_prekey_public"@,
            match b.one_time_pre_key {
                Some(k) => JsonView::Bytes(k@),
                None => JsonView::Null,
            },
        ),
        (
            "one_time_prekey_id"@,
            match b.one_time_pre_key_id {
                Some(id) => JsonView::Number(id as u64),
                None => JsonView::Null,
            },
        ),
        ("spk_uploaded_at"@, JsonView::Number(b.spk_uploaded_at as u64)),
        ("spk_rotation_epoch"@, JsonView::Number(b.spk_rotation_epoch as u64)),
    ]
}

/// What is said where the server has no bundle.
pub const NO_BUNDLE: &'static str = "no bundle in response";

/// The fields of a bundle.
pub fn bundle_values(b: PreKeyBundle) -> (r: Vec<(&'static str, Json)>)
    ensures
        fields_view(r@) == bundle_fields(b),
{
    let mut fields: Vec<(&'static str, Json)> = Vec::new();
    fields.push(("identity_public", Json::Bytes(b.identity_key)));
    fields.push(("signed_prekey_public", Json::Bytes(b.signed_pre_key)));
    fields.push(("signature", Json::Bytes(b.signed_pre_key_signature)));
    fields.push(("verifying_key", Json::Bytes(b.verifying_key)));
    fields.push(("suite_id", Json::Number(SUITE_ID)));
    fields.push(
        (
            "one_time_prekey_public",
            match b.one_time_pre_key {
                Some(k) => Json::Bytes(k),
                None => Json::Null,
            },
        ),
    );
    fields.push(
        (
            "one_time_prekey_id",
            match b.one_time_pre_key_id {
                Some(id) => Json::Number(id as u64),
                None => Json::Null,
            },
        ),
    );
    fields.push(
        (
            "spk_uploaded_at",
            Json::Number(
                #[verifier::truncate]
                (b.spk_uploaded_at as u64),
            ),
        ),
    );
    fields.push(("spk_rotation_epoch", Json::Number(b.spk_rotation_epoch as u64)));
    assert(fields_view(fields@) =~= bundle_fields(b));
    fields
}

/// The bundle in the server's answer as the messaging core reads it: a JSON object.
pub fn get_pre_key_bundle_json(bundle: Option<PreKeyBundle>) -> (r: Result<String, String>)
    ensures
        match bundle {
            Some(b) => r is Ok && (r->Ok_0)@ == json_object(bundle_fields(b)),
            None => r is Err && (r->Err_0)@ == NO_BUNDLE@,
        },
{
    match bundle {
        Some(b) => Ok(json_text(bundle_values(b))),
        None => Err(NO_BUNDLE.to_string()),
    }
}

/// A public one-time pre-key.
#[derive(Debug)]
pub struct OneTimePreKey {
    pub key_id: u32,
    pub public_key: Vec<u8>,
}

/// A request to store one-time pre-keys.
#[derive(Debug)]
pub struct UploadPreKeysRequest {
    pub device_id: String,
    pub pre_keys: Vec<OneTimePreKey>,
    pub replace_existing: bool,
}

/// Whether a request asks to store one-time pre-keys of a device beside those that are there.
pub open spec fn asks_to_store(
    r: UploadPreKeysRequest,
    device_id: Seq<char>,
    keys: Seq<(u32, Vec<u8>)>,
) -> bool {
    &&& r.device_id@ == device_id
    &&& r.pre_keys@.len() == keys.len()
    &&& forall|i: int|
        0 <= i < keys.len() ==> (#[trigger] r.pre_keys@[i]).key_id == keys[i].0
            && r.pre_keys@[i].public_key@ == keys[i].1@
    &&& !r.replace_existing
}

/// A request to store one-time pre-keys of a device beside those that are there.
pub fn upload_pre_keys(device_id: &str, keys: Vec<(u32, Vec<u8>)>) -> (r: UploadPreKeysRequest)
    ensures
        asks_to_store(r, device_id@, keys@),
{
    let mut pre_keys: Vec<OneTimePreKey> = Vec::new();
    let mut i: usize = 0;
    while i < keys.len()
        invariant
            i <= keys@.len(),
            pre_keys@.len() == i,
            forall|j: int|
                0 <= j < i ==> (#[trigger] pre_keys@[j]).key_id == keys@[j].0
                    && pre_keys@[j].public_key@ == keys@[j].1@,
        decreases keys@.len() - i,
    {
        pre_keys.push(OneTimePreKey { key_id: keys[i].0, public_key: keys[i].1.clone() });
        i = i + 1;
    }
    UploadPreKeysRequest { device_id: device_id.to_string(), pre_keys, replace_existing: false }
}

} // verus!
