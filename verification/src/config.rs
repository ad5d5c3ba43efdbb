//! Configuration, the saved session and the keys that protect it.
//!
//! A session is saved as an [`EncryptedSession`]: its JSON text under AES-256-GCM, with a key that
//! Argon2id and HKDF derive from the user's passphrase and a salt stored beside it.

use vstd::prelude::*;
use vstd::utf8::*;

use crate::codec::{base64_bytes, base64_text, from_base64, to_base64};
use crate::crypto::{
    aes_gcm_open, aes_gcm_opened, aes_gcm_seal, aes_gcm_sealed, argon2id, argon2id_key, hkdf_key,
    hkdf_sha256, random_bytes, AES_GCM_LIMIT,
};
use crate::secret::SecretBytes;
use crate::text::{cat2, cat3, decimal, decimal_text};

verus! {

// ── Types ────────────────────────────────────────────────────────────────────

/// The identity of this device: its keys and tokens.
#[derive(Debug)]
pub struct Session {
    /// Ed25519 signing key (hex, private).
    pub signing_key_hex: String,
    /// X25519 identity key (hex, private).
    pub identity_key_hex: String,
    /// Device ID.
    pub device_id: String,
    /// User ID.
    pub user_id: String,
    /// Access token.
    pub access_token: String,
    /// Refresh token.
    pub refresh_token: String,
    /// When the access token expires (Unix seconds).
    pub expires_at: i64,
    /// X25519 signed pre-key (hex, private).
    pub spk_key_hex: String,
    /// Ed25519 signature over the public signed pre-key (hex).
    pub spk_sig_hex: String,
}

impl Clone for Session {
    fn clone(&self) -> (r: Self)
        ensures
            r == *self,
    {
        Session {
            signing_key_hex: self.signing_key_hex.clone(),
            identity_key_hex: self.identity_key_hex.clone(),
            device_id: self.device_id.clone(),
            user_id: self.user_id.clone(),
            access_token: self.access_token.clone(),
            refresh_token: self.refresh_token.clone(),
            expires_at: self.expires_at,
            spk_key_hex: self.spk_key_hex.clone(),
            spk_sig_hex: self.spk_sig_hex.clone(),
        }
    }
}

/// Keys derived from the passphrase. They are wiped when they are dropped and never saved.
pub struct DerivedKeys {
    /// AES-256-GCM key of the saved session.
    pub session: SecretBytes,
    /// AES-256 key of the message database.
    pub database: SecretBytes,
}

/// The derived keys with the salt that they were derived with. The salt stays the same as long as
/// the identity does, since the database key depends on it.
pub struct SessionKey {
    pub keys: DerivedKeys,
    pub master_salt: [u8; 16],
}

/// How traffic reaches the server.
#[derive(Debug, PartialEq)]
pub enum TransportConfig {
    /// TLS without obfuscation.
    Direct,
    /// obfs4 obfuscation.
    Obfs4 { bridge_line: String },
    /// obfs4 inside TLS with a server name of choice.
    Obfs4Tls { bridge_line: String, tls_server_name: String },
    /// Domain fronting through a CDN.
    CdnFront { cdn_endpoint: String, sni_host: String, real_host: String },
}

impl Clone for TransportConfig {
    fn clone(&self) -> (r: Self)
        ensures
            r == *self,
    {
        match self {
            TransportConfig::Direct => TransportConfig::Direct,
            TransportConfig::Obfs4 { bridge_line } => TransportConfig::Obfs4 {
                bridge_line: bridge_line.clone(),
            },
            TransportConfig::Obfs4Tls { bridge_line, tls_server_name } => {
                TransportConfig::Obfs4Tls {
                    bridge_line: bridge_line.clone(),
                    tls_server_name: tls_server_name.clone(),
                }
            },
            TransportConfig::CdnFront { cdn_endpoint, sni_host, real_host } => {
                TransportConfig::CdnFront {
                    cdn_endpoint: cdn_endpoint.clone(),
                    sni_host: sni_host.clone(),
                    real_host: real_host.clone(),
                }
            },
        }
    }
}

impl Default for TransportConfig {
    fn default() -> (r: Self)
        ensures
            r == TransportConfig::Direct,
    {
        TransportConfig::Direct
    }
}

/// The configuration file.
#[derive(Debug)]
pub struct Config {
    pub server: String,
    pub transport: TransportConfig,
}

/// The server that is used where none is configured.
pub const DEFAULT_SERVER: &'static str = "https://construct.cc";

/// The server that is used where none is configured.
pub fn default_server() -> (r: String)
    ensures
        r@ == DEFAULT_SERVER@,
{
    DEFAULT_SERVER.to_string()
}

impl Default for Config {
    fn default() -> (r: Self)
        ensures
            r.server@ == DEFAULT_SERVER@,
            r.transport == TransportConfig::Direct,
    {
        Config { server: default_server(), transport: TransportConfig::Direct }
    }
}

/// A saved session.
#[derive(Debug)]
pub struct EncryptedSession {
    /// Version of the format, always 1.
    pub v: u32,
    /// Argon2id salt (Base64, 16 bytes).
    pub salt: String,
    /// AES-256-GCM nonce (Base64, 12 bytes).
    pub nonce: String,
    /// The JSON text of the session under AES-256-GCM (Base64).
    pub ciphertext: String,
}

/// What kind of session is saved.
#[derive(Debug, Clone, Copy, PartialEq, Eq, Structural)]
pub enum SessionState {
    /// An encrypted one.
    Encrypted,
    /// One in plain text.
    Plaintext,
    /// None.
    Absent,
}

/// What was found in the place of the session file.
#[derive(Debug)]
pub enum SessionFile {
    /// Nothing.
    Absent,
    /// A file that could not be read, and why.
    Unreadable(String),
    /// An encrypted session.
    Encrypted(EncryptedSession),
    /// Anything else.
    Other,
}

/// Why a saved session could not be used or made.
#[derive(Debug)]
pub enum ConfigError {
    /// The file could not be read.
    Unreadable(String),
    /// The file is no encrypted session.
    NotEncrypted,
    /// The salt is not Base64.
    BadSalt,
    /// The salt has a wrong length.
    SaltLength(usize),
    /// The nonce is not Base64.
    BadNonce,
    /// The nonce has a wrong length.
    NonceLength(usize),
    /// The ciphertext is not Base64.
    BadCiphertext,
    /// The passphrase is too long.
    PassphraseTooLong,
    /// The session is too long to be encrypted.
    SessionTooLong,
    /// The key is wrong or the file is damaged.
    WrongKey,
}

impl ConfigError {
    /// The message for an error.
    pub open spec fn text(self) -> Seq<char> {
        match self {
            ConfigError::Unreadable(e) => e@,
            ConfigError::NotEncrypted => "session file is not in encrypted format"@,
            ConfigError::BadSalt => "bad salt encoding"@,
            ConfigError::SaltLength(n) => {
                "unexpected salt length: "@ + decimal_text(n as nat) + " (expected 16)"@
            },
            ConfigError::BadNonce => "bad nonce encoding"@,
            ConfigError::NonceLength(n) => {
                "unexpected nonce length: "@ + decimal_text(n as nat) + " (expected 12)"@
            },
            ConfigError::BadCiphertext => "bad ciphertext encoding"@,
            ConfigError::PassphraseTooLong => "Argon2: password is too long"@,
            ConfigError::SessionTooLong => "AES-GCM encrypt failed"@,
            ConfigError::WrongKey => "Decryption failed — wrong passphrase?"@,
        }
    }

    /// The message for an error.
    pub fn message(&self) -> (r: String)
        ensures
            r@ == self.text(),
    {
        match self {
            ConfigError::Unreadable(e) => e.clone(),
            ConfigError::NotEncrypted => "session file is not in encrypted format".to_string(),
            ConfigError::BadSalt => "bad salt encoding".to_string(),
            ConfigError::SaltLength(n) => cat3(
                "unexpected salt length: ",
                decimal(*n as u64).as_str(),
                " (expected 16)",
            ),
            ConfigError::BadNonce => "bad nonce encoding".to_string(),
            ConfigError::NonceLength(n) => cat3(
                "unexpected nonce length: ",
                decimal(*n as u64).as_str(),
                " (expected 12)",
            ),
            ConfigError::BadCiphertext => "bad ciphertext encoding".to_string(),
            ConfigError::PassphraseTooLong => "Argon2: password is too long".to_string(),
            ConfigError::SessionTooLong => "AES-GCM encrypt failed".to_string(),
            ConfigError::WrongKey => "Decryption failed — wrong passphrase?".to_string(),
        }
    }
}

/// What kind of session a file holds.
pub open spec fn state_of(file: SessionFile) -> SessionState {
    match file {
        SessionFile::Absent => SessionState::Absent,
        SessionFile::Unreadable(_) => SessionState::Absent,
        SessionFile::Encrypted(_) => SessionState::Encrypted,
        SessionFile::Other => SessionState::Plaintext,
    }
}

/// What kind of session a file holds; one that cannot be read counts as none.
pub fn detect_session(file: &SessionFile) -> (r: SessionState)
    ensures
        r == state_of(*file),
{
    match file {
        SessionFile::Absent => SessionState::Absent,
        SessionFile::Unreadable(_) => SessionState::Absent,
        SessionFile::Encrypted(_) => SessionState::Encrypted,
        SessionFile::Other => SessionState::Plaintext,
    }
}

// ── Key derivation ───────────────────────────────────────────────────────────

/// Memory of the key derivation, in KiB. Together with the number of passes and lanes this is
/// tuned for a Raspberry Pi 4.
pub const ARGON2_MEMORY: u32 = 32_768;

/// Number of passes of the key derivation.
pub const ARGON2_PASSES: u32 = 3;

/// Number of lanes of the key derivation.
pub const ARGON2_LANES: u32 = 1;

/// Length of all keys.
pub const KEY_LEN: usize = 32;

/// What the session key is derived for.
pub const SESSION_INFO: &'static str = "construct-session-v1";

/// What the database key is derived for.
pub const DATABASE_INFO: &'static str = "construct-database-v1";

/// The master key of a passphrase and a salt.
pub open spec fn master_key(passphrase: Seq<u8>, salt: Seq<u8>) -> Seq<u8> {
    argon2id_key(passphrase, salt, ARGON2_MEMORY, ARGON2_PASSES, ARGON2_LANES, KEY_LEN)
}

/// The key of the saved session for a passphrase and a salt.
pub open spec fn session_key_of(passphrase: Seq<u8>, salt: Seq<u8>) -> Seq<u8> {
    hkdf_key(master_key(passphrase, salt), encode_utf8(SESSION_INFO@), KEY_LEN)
}

/// The key of the message database for a passphrase and a salt.
pub open spec fn database_key_of(passphrase: Seq<u8>, salt: Seq<u8>) -> Seq<u8> {
    hkdf_key(master_key(passphrase, salt), encode_utf8(DATABASE_INFO@), KEY_LEN)
}

impl SessionKey {
    /// Whether the keys have the length that AES-256 asks for.
    pub open spec fn wf(self) -> bool {
        self.keys.session@.len() == 32 && self.keys.database@.len() == 32
    }

    /// Whether the keys are those of a passphrase and the salt.
    pub open spec fn is_derived_from(self, passphrase: Seq<u8>, salt: Seq<u8>) -> bool {
        &&& self.master_salt@ == salt
        &&& self.keys.session@ == session_key_of(passphrase, salt)
        &&& self.keys.database@ == database_key_of(passphrase, salt)
        &&& self.wf()
    }
}

/// The master key of a passphrase and a salt, by Argon2id.
fn derive_master_key(passphrase: &[u8], salt: &[u8]) -> (r: Result<SecretBytes, ConfigError>)
    requires
        salt@.len() == 16,
    ensures
        match r {
            Ok(k) => passphrase@.len() <= 0xffff_ffff && k@ == master_key(passphrase@, salt@)
                && k@.len() == KEY_LEN,
            Err(e) => passphrase@.len() > 0xffff_ffff && e == ConfigError::PassphraseTooLong,
        },
{
    match argon2id(passphrase, salt, ARGON2_MEMORY, ARGON2_PASSES, ARGON2_LANES, KEY_LEN) {
        Some(k) => Ok(SecretBytes::from_vec(k)),
        None => Err(ConfigError::PassphraseTooLong),
    }
}

/// The two keys of a master key, by HKDF-SHA-256. They are independent of each other, since they
/// are derived for different purposes.
fn derive_keys_from_master(master: &SecretBytes) -> (r: DerivedKeys)
    ensures
        r.session@ == hkdf_key(master@, encode_utf8(SESSION_INFO@), KEY_LEN),
        r.database@ == hkdf_key(master@, encode_utf8(DATABASE_INFO@), KEY_LEN),
        r.session@.len() == 32,
        r.database@.len() == 32,
{
    let m = master.bytes().as_slice();
    DerivedKeys {
        session: SecretBytes::from_vec(hkdf_sha256(m, SESSION_INFO.as_bytes(), KEY_LEN)),
        database: SecretBytes::from_vec(hkdf_sha256(m, DATABASE_INFO.as_bytes(), KEY_LEN)),
    }
}

/// The keys of a passphrase and a salt.
pub fn derive_session_key(passphrase: &[u8], salt: [u8; 16]) -> (r: Result<
    SessionKey,
    ConfigError,
>)
    ensures
        match r {
            Ok(sk) => passphrase@.len() <= 0xffff_ffff && sk.is_derived_from(passphrase@, salt@),
            Err(e) => passphrase@.len() > 0xffff_ffff && e == ConfigError::PassphraseTooLong,
        },
{
    match derive_master_key(passphrase, salt.as_slice()) {
        Ok(master) => Ok(
            SessionKey { keys: derive_keys_from_master(&master), master_salt: salt },
        ),
        Err(e) => Err(e),
    }
}

/// The first 16 bytes of a vector.
fn first_16(v: &Vec<u8>) -> (r: [u8; 16])
    requires
        v@.len() >= 16,
    ensures
        r@ == v@.take(16),
{
    let mut a = [0u8; 16];
    let mut i: usize = 0;
    while i < 16
        invariant
            i <= 16,
            v@.len() >= 16,
            a@.len() == 16,
            forall|j: int| 0 <= j < i ==> a@[j] == v@[j],
        decreases 16 - i,
    {
        a[i] = v[i];
        i = i + 1;
    }
    assert(a@ == v@.take(16));
    a
}

/// New keys for a new account: the salt is drawn at random.
pub fn create_session_key(passphrase: &[u8]) -> (r: Result<SessionKey, ConfigError>)
    ensures
        match r {
            Ok(sk) => passphrase@.len() <= 0xffff_ffff && sk.is_derived_from(
                passphrase@,
                sk.master_salt@,
            ),
            Err(e) => passphrase@.len() > 0xffff_ffff && e == ConfigError::PassphraseTooLong,
        },
{
    let salt = first_16(&random_bytes(16));
    derive_session_key(passphrase, salt)
}

/// The salt that a session was saved with, or why there is none.
pub open spec fn stored_salt(file: SessionFile) -> Result<Option<Seq<u8>>, ConfigError> {
    match file {
        SessionFile::Absent => Ok(None),
        SessionFile::Unreadable(e) => Err(ConfigError::Unreadable(e)),
        SessionFile::Other => Err(ConfigError::NotEncrypted),
        SessionFile::Encrypted(enc) => match base64_bytes(enc.salt@) {
            None => Err(ConfigError::BadSalt),
            Some(s) => if s.len() == 16 {
                Ok(Some(s))
            } else {
                Err(ConfigError::SaltLength(s.len() as usize))
            },
        },
    }
}

/// The salt that a session was saved with. Nothing is decrypted.
pub fn read_master_salt(file: &SessionFile) -> (r: Result<Option<[u8; 16]>, ConfigError>)
    ensures
        match r {
            Ok(Some(salt)) => stored_salt(*file) == Ok::<_, ConfigError>(Some(salt@)),
            Ok(None) => stored_salt(*file) == Ok::<Option<Seq<u8>>, ConfigError>(None),
            Err(e) => stored_salt(*file) == Err::<Option<Seq<u8>>, ConfigError>(e),
        },
{
    match file {
        SessionFile::Absent => Ok(None),
        SessionFile::Unreadable(e) => Err(ConfigError::Unreadable(e.clone())),
        SessionFile::Other => Err(ConfigError::NotEncrypted),
        SessionFile::Encrypted(enc) => match from_base64(enc.salt.as_str()) {
            None => Err(ConfigError::BadSalt),
            Some(s) => {
                if s.len() != 16 {
                    return Err(ConfigError::SaltLength(s.len()));
                }
                let salt = first_16(&s);
                assert(salt@ == s@);
                Ok(Some(salt))
            },
        },
    }
}

/// The keys for a saved session: its salt and the passphrase give the keys that it was saved with,
/// if the passphrase is the same. Whether it is shows only when the session is opened.
pub fn open_session_key(passphrase: &[u8], file: &SessionFile) -> (r: Result<
    Option<SessionKey>,
    ConfigError,
>)
    ensures
        match stored_salt(*file) {
            Ok(None) => r is Ok && r->Ok_0 is None,
            Ok(Some(salt)) => if passphrase@.len() <= 0xffff_ffff {
                r is Ok && r->Ok_0 is Some && (r->Ok_0->0).is_derived_from(passphrase@, salt)
            } else {
                r is Err && r->Err_0 == ConfigError::PassphraseTooLong
            },
            Err(e) => r is Err && r->Err_0 == e,
        },
{
    match read_master_salt(file) {
        Ok(Some(salt)) => match derive_session_key(passphrase, salt) {
            Ok(sk) => Ok(Some(sk)),
            Err(e) => Err(e),
        },
        Ok(None) => Ok(None),
        Err(e) => Err(e),
    }
}

// ── Encryption of the session ────────────────────────────────────────────────

/// What the text of a saved session is under a key, or why it cannot be read.
pub open spec fn opened_session(enc: EncryptedSession, key: Seq<u8>) -> Result<
    Seq<u8>,
    ConfigError,
> {
    match base64_bytes(enc.nonce@) {
        None => Err(ConfigError::BadNonce),
        Some(nonce) => match base64_bytes(enc.ciphertext@) {
            None => Err(ConfigError::BadCiphertext),
            Some(sealed) => if nonce.len() != 12 {
                Err(ConfigError::NonceLength(nonce.len() as usize))
            } else {
                match aes_gcm_opened(key, nonce, sealed) {
                    Some(text) => Ok(text),
                    None => Err(ConfigError::WrongKey),
                }
            },
        },
    }
}

/// Encrypts the text of a session under a nonce. What comes out is opened with the same key, and
/// its salt is the one that the key was derived with.
pub fn seal_session(text: &SecretBytes, sk: &SessionKey, nonce: &Vec<u8>) -> (r: Result<
    EncryptedSession,
    ConfigError,
>)
    requires
        sk.wf(),
        nonce@.len() == 12,
    ensures
        match r {
            Ok(enc) => {
                &&& text@.len() <= AES_GCM_LIMIT
                &&& enc.v == 1
                &&& enc.salt@ == base64_text(sk.master_salt@)
                &&& enc.nonce@ == base64_text(nonce@)
                &&& enc.ciphertext@ == base64_text(
                    aes_gcm_sealed(sk.keys.session@, nonce@, text@),
                )
                &&& opened_session(enc, sk.keys.session@) == Ok::<_, ConfigError>(text@)
                &&& stored_salt(SessionFile::Encrypted(enc)) == Ok::<_, ConfigError>(
                    Some(sk.master_salt@),
                )
            },
            Err(e) => text@.len() > AES_GCM_LIMIT && e == ConfigError::SessionTooLong,
        },
{
    match aes_gcm_seal(
        sk.keys.session.bytes().as_slice(),
        nonce.as_slice(),
        text.bytes().as_slice(),
    ) {
        Some(sealed) => Ok(
            EncryptedSession {
                v: 1,
                salt: to_base64(sk.master_salt.as_slice()),
                nonce: to_base64(nonce.as_slice()),
                ciphertext: to_base64(sealed.as_slice()),
            },
        ),
        None => Err(ConfigError::SessionTooLong),
    }
}

/// Encrypts the text of a session under a nonce drawn at random.
pub fn encrypt_session(text: &SecretBytes, sk: &SessionKey) -> (r: Result<
    EncryptedSession,
    ConfigError,
>)
    requires
        sk.wf(),
    ensures
        match r {
            Ok(enc) => {
                &&& text@.len() <= AES_GCM_LIMIT
                &&& enc.v == 1
                &&& opened_session(enc, sk.keys.session@) == Ok::<_, ConfigError>(text@)
                &&& stored_salt(SessionFile::Encrypted(enc)) == Ok::<_, ConfigError>(
                    Some(sk.master_salt@),
                )
            },
            Err(e) => text@.len() > AES_GCM_LIMIT && e == ConfigError::SessionTooLong,
        },
{
    let nonce = random_bytes(12);
    seal_session(text, sk, &nonce)
}

/// Decrypts the text of a saved session.
pub fn decrypt_session(enc: &EncryptedSession, sk: &SessionKey) -> (r: Result<
    SecretBytes,
    ConfigError,
>)
    requires
        sk.wf(),
    ensures
        match r {
            Ok(text) => opened_session(*enc, sk.keys.session@) == Ok::<_, ConfigError>(text@),
            Err(e) => opened_session(*enc, sk.keys.session@) == Err::<Seq<u8>, ConfigError>(e),
        },
{
    let nonce = match from_base64(enc.nonce.as_str()) {
        Some(n) => n,
        None => return Err(ConfigError::BadNonce),
    };
    let sealed = match from_base64(enc.ciphertext.as_str()) {
        Some(c) => c,
        None => return Err(ConfigError::BadCiphertext),
    };
    if nonce.len() != 12 {
        return Err(ConfigError::NonceLength(nonce.len()));
    }
    match aes_gcm_open(
        sk.keys.session.bytes().as_slice(),
        nonce.as_slice(),
        sealed.as_slice(),
    ) {
        Some(text) => Ok(SecretBytes::from_vec(text)),
        None => Err(ConfigError::WrongKey),
    }
}

/// Two derivations from the same passphrase and salt give the same keys.
pub proof fn same_passphrase_same_keys(
    a: SessionKey,
    b: SessionKey,
    passphrase: Seq<u8>,
    salt: Seq<u8>,
)
    requires
        a.is_derived_from(passphrase, salt),
        b.is_derived_from(passphrase, salt),
    ensures
        a.keys.session@ == b.keys.session@,
        a.keys.database@ == b.keys.database@,
        a.master_salt@ == b.master_salt@,
{
}

/// A session that was saved is read again with the passphrase that it was saved under: the key
/// that `open_session_key` derives from the saved salt opens it, and the database key is the same
/// as well.
pub proof fn saved_session_is_read_again(
    passphrase: Seq<u8>,
    saved_with: SessionKey,
    enc: EncryptedSession,
    text: Seq<u8>,
    opened_with: SessionKey,
    salt: Seq<u8>,
)
    requires
        saved_with.is_derived_from(passphrase, saved_with.master_salt@),
        opened_session(enc, saved_with.keys.session@) == Ok::<_, ConfigError>(text),
        stored_salt(SessionFile::Encrypted(enc)) == Ok::<_, ConfigError>(
            Some(saved_with.master_salt@),
        ),
        stored_salt(SessionFile::Encrypted(enc)) == Ok::<_, ConfigError>(Some(salt)),
        opened_with.is_derived_from(passphrase, salt),
    ensures
        opened_session(enc, opened_with.keys.session@) == Ok::<_, ConfigError>(text),
        opened_with.keys.database@ == saved_with.keys.database@,
{
}

// ── Places ───────────────────────────────────────────────────────────────────

/// The name of the directories of this client.
pub const DIRECTORY: &'static str = "construct-tui";

/// `part` below `base`.
pub open spec fn below(base: Seq<char>, part: Seq<char>) -> Seq<char> {
    if base.len() == 0 {
        part
    } else if base.last() == '/' {
        base + part
    } else {
        base + "/"@ + part
    }
}

/// `part` below `base`.
pub fn join(base: &str, part: &str) -> (r: String)
    ensures
        r@ == below(base@, part@),
{
    let n: usize = base.unicode_len();
    if n == 0 {
        part.to_string()
    } else if base.get_char(n - 1) == '/' {
        cat2(base, part)
    } else {
        cat3(base, "/", part)
    }
}

/// The configuration directory, below the user's.
pub fn config_dir(base: &str) -> (r: String)
    ensures
        r@ == below(base@, DIRECTORY@),
{
    join(base, DIRECTORY)
}

/// The configuration file, below the user's configuration directory.
pub fn config_path(base: &str) -> (r: String)
    ensures
        r@ == below(below(base@, DIRECTORY@), "config.json"@),
{
    join(config_dir(base).as_str(), "config.json")
}

/// Whether these are the place of the session file and the older place that it must be moved from.
pub open spec fn is_session_path(
    base: Seq<char>,
    old_exists: bool,
    new_exists: bool,
    path: String,
    from: Option<String>,
) -> bool {
    &&& path@ == below(below(base, DIRECTORY@), "session.enc"@)
    &&& from is Some <==> old_exists && !new_exists
    &&& from is Some ==> from->0@ == below(below(base, DIRECTORY@), "session.json"@)
}

/// The place of the session file, and the older place that it must be moved from first: the older
/// file is moved where it exists and there is none in the new place.
pub fn session_path(base: &str, old_exists: bool, new_exists: bool) -> (r: (
    String,
    Option<String>,
))
    ensures
        is_session_path(base@, old_exists, new_exists, r.0, r.1),
{
    let dir = config_dir(base);
    let path = join(dir.as_str(), "session.enc");
    let from = if old_exists && !new_exists {
        Some(join(dir.as_str(), "session.json"))
    } else {
        None
    };
    (path, from)
}

/// Whether these are all places where a session may be.
pub open spec fn are_session_places(base: Seq<char>, now: String, before: String) -> bool {
    &&& now@ == below(below(base, DIRECTORY@), "session.enc"@)
    &&& before@ == below(below(base, DIRECTORY@), "session.json"@)
}

/// All places where a session may be: the session file and the older one. Both are cleared.
pub fn session_places(base: &str) -> (r: (String, String))
    ensures
        are_session_places(base@, r.0, r.1),
{
    let dir = config_dir(base);
    (join(dir.as_str(), "session.enc"), join(dir.as_str(), "session.json"))
}

/// Bytes to write over a session file of some length before it is deleted.
pub fn garbage(len: usize) -> (r: Vec<u8>)
    ensures
        r@.len() == len,
{
    random_bytes(len)
}

/// The message database, below the user's data directory.
pub fn db_path(base: &str) -> (r: String)
    ensures
        r@ == below(below(base@, DIRECTORY@), "messages.db"@),
{
    join(join(base, DIRECTORY).as_str(), "messages.db")
}

/// The log file, below the user's data directory or, where there is none, the working directory.
pub fn log_file_path(base: Option<&str>) -> (r: String)
    ensures
        r@ == below(
            below(
                match base {
                    Some(b) => b@,
                    None => "."@,
                },
                DIRECTORY@,
            ),
            "konstrukt.log"@,
        ),
{
    let base: &str = match base {
        Some(b) => b,
        None => ".",
    };
    join(join(base, DIRECTORY).as_str(), "konstrukt.log")
}

} // verus!
