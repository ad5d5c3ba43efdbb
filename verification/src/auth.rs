//! Registration, device linking and authentication.
//!
//! A new device makes its keys and registers their public halves, or links itself to an account.
//! A known device proves that it holds its signing key and gets new tokens.

use vstd::prelude::*;
use vstd::utf8::*;

use crate::codec::{base64_text, from_hex, hex_bytes, hex_error, is_hex_text, to_base64, to_hex};
use crate::config::Session;
use crate::crypto::{ed25519_sign, ed25519_signature};
use crate::text::{bytes_hex, cat2, cat4, signed_decimal, signed_text};

verus! {

/// What a successful authentication gives to the user interface.
#[derive(Debug)]
pub struct AuthResult {
    pub user_id: String,
    pub device_id: String,
    pub access_token: String,
    /// The session to save: a new one after a registration or a link, or one with new tokens after
    /// an encrypted session was restored. Nothing after a plain session was restored, since that
    /// is saved again on the way.
    pub session: Option<Session>,
}

/// The tokens that the server hands out.
#[derive(Debug)]
pub struct AuthTokens {
    pub user_id: String,
    pub access_token: String,
    pub refresh_token: String,
    pub expires_at: i64,
}

/// The keys of a new device.
pub struct DeviceKeys {
    /// Ed25519 secret.
    pub signing_secret: [u8; 32],
    /// Ed25519 public key.
    pub signing_public: Vec<u8>,
    /// X25519 secret.
    pub identity_secret: [u8; 32],
    /// X25519 public key.
    pub identity_public: Vec<u8>,
    /// X25519 secret of the signed pre-key.
    pub spk_secret: [u8; 32],
    /// X25519 public key of the signed pre-key.
    pub spk_public: Vec<u8>,
}

/// The public keys of a device as the server gets them (Base64).
#[derive(Debug)]
pub struct DevicePublicKeys {
    pub verifying_key: String,
    pub identity_public: String,
    pub signed_prekey_public: String,
    pub signed_prekey_signature: String,
    pub crypto_suite: String,
}

/// The steps of a registration.
#[derive(Debug, Clone, Copy, PartialEq, Eq, Structural)]
pub enum RegistrationStep {
    SigningKey,
    IdentityKey,
    SignedPreKey,
    SignPreKey,
    Connect,
    ProofOfWork,
    Register,
}

impl RegistrationStep {
    /// The place of the step in the checklist.
    pub open spec fn place(self) -> usize {
        match self {
            RegistrationStep::SigningKey => 0,
            RegistrationStep::IdentityKey => 1,
            RegistrationStep::SignedPreKey => 2,
            RegistrationStep::SignPreKey => 3,
            RegistrationStep::Connect => 4,
            RegistrationStep::ProofOfWork => 5,
            RegistrationStep::Register => 6,
        }
    }

    /// The place of the step in the checklist.
    pub fn index(self) -> (r: usize)
        ensures
            r == self.place(),
            r < 7,
    {
        match self {
            RegistrationStep::SigningKey => 0,
            RegistrationStep::IdentityKey => 1,
            RegistrationStep::SignedPreKey => 2,
            RegistrationStep::SignPreKey => 3,
            RegistrationStep::Connect => 4,
            RegistrationStep::ProofOfWork => 5,
            RegistrationStep::Register => 6,
        }
    }
}

/// The name of the cryptographic suite.
pub const CRYPTO_SUITE: &'static str = "Curve25519+Ed25519";

/// The signature over the signed pre-key: the prologue of the suite and the public pre-key, under
/// the signing key.
pub open spec fn prekey_signature(keys: DeviceKeys, prologue: Seq<u8>) -> Seq<u8> {
    ed25519_signature(keys.signing_secret@, prologue + keys.spk_public@)
}

/// The signature over the signed pre-key.
pub fn sign_prekey(keys: &DeviceKeys, prologue: &Vec<u8>) -> (r: Vec<u8>)
    ensures
        r@ == prekey_signature(*keys, prologue@),
{
    let mut message: Vec<u8> = Vec::new();
    message.extend_from_slice(prologue.as_slice());
    message.extend_from_slice(keys.spk_public.as_slice());
    assert(message@ == prologue@ + keys.spk_public@);
    ed25519_sign(&keys.signing_secret, message.as_slice())
}

/// What the server is told of the keys of a device: the public keys and the signature over the
/// pre-key, and none of the secrets.
pub open spec fn published(
    r: DevicePublicKeys,
    signing_public: Seq<u8>,
    identity_public: Seq<u8>,
    spk_public: Seq<u8>,
    signature: Seq<u8>,
) -> bool {
    &&& r.verifying_key@ == base64_text(signing_public)
    &&& r.identity_public@ == base64_text(identity_public)
    &&& r.signed_prekey_public@ == base64_text(spk_public)
    &&& r.signed_prekey_signature@ == base64_text(signature)
    &&& r.crypto_suite@ == CRYPTO_SUITE@
}

/// What the server is told of the keys of a device.
pub fn public_keys(keys: &DeviceKeys, signature: &Vec<u8>) -> (r: DevicePublicKeys)
    ensures
        published(r, keys.signing_public@, keys.identity_public@, keys.spk_public@, signature@),
{
    DevicePublicKeys {
        verifying_key: to_base64(keys.signing_public.as_slice()),
        identity_public: to_base64(keys.identity_public.as_slice()),
        signed_prekey_public: to_base64(keys.spk_public.as_slice()),
        signed_prekey_signature: to_base64(signature.as_slice()),
        crypto_suite: CRYPTO_SUITE.to_string(),
    }
}

/// The secrets of a device do not reach the server: devices with the same public keys and the same
/// signature tell the server the same, whatever their secrets are.
pub proof fn secrets_stay_on_the_device(
    a: DeviceKeys,
    b: DeviceKeys,
    signature: Seq<u8>,
    told_a: DevicePublicKeys,
    told_b: DevicePublicKeys,
)
    requires
        a.signing_public@ == b.signing_public@,
        a.identity_public@ == b.identity_public@,
        a.spk_public@ == b.spk_public@,
        published(told_a, a.signing_public@, a.identity_public@, a.spk_public@, signature),
        published(told_b, b.signing_public@, b.identity_public@, b.spk_public@, signature),
    ensures
        told_a.verifying_key@ == told_b.verifying_key@,
        told_a.identity_public@ == told_b.identity_public@,
        told_a.signed_prekey_public@ == told_b.signed_prekey_public@,
        told_a.signed_prekey_signature@ == told_b.signed_prekey_signature@,
        told_a.crypto_suite@ == told_b.crypto_suite@,
{
}

/// Whether a session is that of a new device with these keys, this ID and these tokens.
pub open spec fn is_new_session(
    s: Session,
    keys: DeviceKeys,
    signature: Seq<u8>,
    device_id: Seq<char>,
    tokens: AuthTokens,
) -> bool {
    &&& s.signing_key_hex@ == bytes_hex(keys.signing_secret@)
    &&& s.identity_key_hex@ == bytes_hex(keys.identity_secret@)
    &&& s.spk_key_hex@ == bytes_hex(keys.spk_secret@)
    &&& s.spk_sig_hex@ == bytes_hex(signature)
    &&& s.device_id@ == device_id
    &&& s.user_id == tokens.user_id
    &&& s.access_token == tokens.access_token
    &&& s.refresh_token == tokens.refresh_token
    &&& s.expires_at == tokens.expires_at
}

/// Whether a result is that of a registration or a link.
pub open spec fn is_new_device(
    r: AuthResult,
    keys: DeviceKeys,
    signature: Seq<u8>,
    device_id: Seq<char>,
    tokens: AuthTokens,
) -> bool {
    &&& r.user_id == tokens.user_id
    &&& r.device_id@ == device_id
    &&& r.access_token == tokens.access_token
    &&& r.session is Some
    &&& is_new_session(r.session->0, keys, signature, device_id, tokens)
}

/// The result of a registration or a link: the session of the new device, which the caller saves.
pub fn new_device_result(
    keys: &DeviceKeys,
    signature: &Vec<u8>,
    device_id: &str,
    tokens: &AuthTokens,
) -> (r: AuthResult)
    ensures
        is_new_device(r, *keys, signature@, device_id@, *tokens),
{
    let session = Session {
        signing_key_hex: to_hex(keys.signing_secret.as_slice()),
        identity_key_hex: to_hex(keys.identity_secret.as_slice()),
        device_id: device_id.to_string(),
        user_id: tokens.user_id.clone(),
        access_token: tokens.access_token.clone(),
        refresh_token: tokens.refresh_token.clone(),
        expires_at: tokens.expires_at,
        spk_key_hex: to_hex(keys.spk_secret.as_slice()),
        spk_sig_hex: to_hex(signature.as_slice()),
    };
    AuthResult {
        user_id: tokens.user_id.clone(),
        device_id: device_id.to_string(),
        access_token: tokens.access_token.clone(),
        session: Some(session),
    }
}

/// A session with other tokens.
pub open spec fn with_tokens(
    session: Session,
    access_token: String,
    refresh_token: String,
    expires_at: i64,
) -> Session {
    Session { access_token, refresh_token, expires_at, ..session }
}

/// A session with the tokens of the last authentication.
pub fn updated_session(session: &Session, tokens: &AuthTokens) -> (r: Session)
    ensures
        r == with_tokens(
            *session,
            tokens.access_token,
            tokens.refresh_token,
            tokens.expires_at,
        ),
{
    let mut updated = session.clone();
    updated.access_token = tokens.access_token.clone();
    updated.refresh_token = tokens.refresh_token.clone();
    updated.expires_at = tokens.expires_at;
    updated
}

/// Whether a result is that for a plain session that was authenticated, and which session takes its
/// place.
pub open spec fn is_restored(
    session: Session,
    tokens: AuthTokens,
    r: AuthResult,
    updated: Session,
) -> bool {
    &&& updated == with_tokens(
        session,
        tokens.access_token,
        tokens.refresh_token,
        tokens.expires_at,
    )
    &&& r == (AuthResult {
        user_id: session.user_id,
        device_id: session.device_id,
        access_token: tokens.access_token,
        session: None,
    })
}

/// The result for a plain session that was authenticated, and the session to save in its place.
pub fn restored_plain(session: &Session, tokens: &AuthTokens) -> (r: (AuthResult, Session))
    ensures
        is_restored(*session, *tokens, r.0, r.1),
{
    let updated = updated_session(session, tokens);
    let result = AuthResult {
        user_id: updated.user_id.clone(),
        device_id: updated.device_id.clone(),
        access_token: tokens.access_token.clone(),
        session: None,
    };
    (result, updated)
}

/// Whether a result is that for a session in memory that was authenticated.
pub open spec fn is_authenticated(session: Session, tokens: AuthTokens, r: AuthResult) -> bool {
    r == (AuthResult {
        user_id: session.user_id,
        device_id: session.device_id,
        access_token: tokens.access_token,
        session: Some(
            with_tokens(session, tokens.access_token, tokens.refresh_token, tokens.expires_at),
        ),
    })
}

/// The result for a session in memory that was authenticated; the caller saves it again.
pub fn authenticated(session: &Session, tokens: &AuthTokens) -> (r: AuthResult)
    ensures
        is_authenticated(*session, *tokens, r),
{
    let updated = updated_session(session, tokens);
    AuthResult {
        user_id: updated.user_id.clone(),
        device_id: updated.device_id.clone(),
        access_token: tokens.access_token.clone(),
        session: Some(updated),
    }
}

// ── Proof of possession ──────────────────────────────────────────────────────

/// The message that a device signs to authenticate itself.
pub open spec fn auth_message(device_id: Seq<char>, timestamp: i64) -> Seq<char> {
    "KonstruktAuth-v1\n"@ + device_id + "\n"@ + signed_text(timestamp as int)
}

/// A request for authentication.
#[derive(Debug)]
pub struct AuthenticateRequest {
    pub device_id: String,
    /// Unix seconds.
    pub timestamp: i64,
    /// Signature over the message (Base64).
    pub signature: String,
}

/// Whether a request is one of a device at a time, signed with a secret.
pub open spec fn is_signed_request(
    req: AuthenticateRequest,
    device_id: Seq<char>,
    secret: Seq<u8>,
    timestamp: i64,
) -> bool {
    &&& req.device_id@ == device_id
    &&& req.timestamp == timestamp
    &&& req.signature@ == base64_text(
        ed25519_signature(secret, encode_utf8(auth_message(device_id, timestamp))),
    )
}

/// Why a request could not be signed.
#[derive(Debug)]
pub enum SigningError {
    /// The key is not hexadecimal, with the reason.
    NotHex(String),
    /// The key does not have 32 bytes.
    Length,
}

impl SigningError {
    /// The message for an error.
    pub open spec fn text(self) -> Seq<char> {
        match self {
            SigningError::NotHex(e) => "invalid signing key hex: "@ + e@,
            SigningError::Length => "signing key must be 32 bytes"@,
        }
    }

    /// The message for an error.
    pub fn message(&self) -> (r: String)
        ensures
            r@ == self.text(),
    {
        match self {
            SigningError::NotHex(e) => cat2("invalid signing key hex: ", e.as_str()),
            SigningError::Length => "signing key must be 32 bytes".to_string(),
        }
    }
}

/// The first 32 bytes of a vector.
fn first_32(v: &Vec<u8>) -> (r: [u8; 32])
    requires
        v@.len() >= 32,
    ensures
        r@ == v@.take(32),
{
    let mut a = [0u8; 32];
    let mut i: usize = 0;
    while i < 32
        invariant
            i <= 32,
            v@.len() >= 32,
            a@.len() == 32,
            forall|j: int| 0 <= j < i ==> a@[j] == v@[j],
        decreases 32 - i,
    {
        a[i] = v[i];
        i = i + 1;
    }
    assert(a@ == v@.take(32));
    a
}

/// A signed request for authentication at a time.
pub fn authenticate_request(device_id: &str, signing_key_hex: &str, timestamp: i64) -> (r: Result<
    AuthenticateRequest,
    SigningError,
>)
    ensures
        match r {
            Ok(req) => {
                &&& is_hex_text(signing_key_hex@) && signing_key_hex@.len() == 64
                &&& is_signed_request(req, device_id@, hex_bytes(signing_key_hex@), timestamp)
            },
            Err(SigningError::NotHex(e)) => !is_hex_text(signing_key_hex@) && e@ == hex_error(
                signing_key_hex@,
            ),
            Err(SigningError::Length) => is_hex_text(signing_key_hex@) && signing_key_hex@.len()
                != 64,
        },
{
    let bytes = match from_hex(signing_key_hex) {
        Ok(b) => b,
        Err(e) => return Err(SigningError::NotHex(e)),
    };
    if bytes.len() != 32 {
        return Err(SigningError::Length);
    }
    let secret = first_32(&bytes);
    assert(secret@ == bytes@);
    let message = cat4(
        "KonstruktAuth-v1\n",
        device_id,
        "\n",
        signed_decimal(timestamp).as_str(),
    );
    let signature = ed25519_sign(&secret, message.as_str().as_bytes());
    Ok(
        AuthenticateRequest {
            device_id: device_id.to_string(),
            timestamp,
            signature: to_base64(signature.as_slice()),
        },
    )
}

} // verus!
