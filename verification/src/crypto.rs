//! Hashes, key derivation, authenticated encryption, signatures and randomness.

use vstd::prelude::*;

use aes_gcm::aead::{Aead, KeyInit};
use aes_gcm::{Aes256Gcm, Nonce};
use argon2::{Algorithm, Argon2, Params, Version};
use ed25519_dalek::{Signer, SigningKey};
use hkdf::Hkdf;
use rand::rngs::OsRng;
use rand::RngCore;
use sha2::{Digest, Sha256, Sha512};

verus! {

/// The SHA-512 digest of a byte sequence.
pub uninterp spec fn sha512_digest(data: Seq<u8>) -> Seq<u8>;

/// Calls `sha2::Sha512::digest`, which gives 64 bytes.
#[verifier::external_body]
pub(crate) fn sha512(data: &[u8]) -> (r: Vec<u8>)
    ensures
        r@ == sha512_digest(data@),
        r@.len() == 64,
{
    Sha512::digest(data).to_vec()
}

/// The Argon2id key of a passphrase and a salt, for the given memory in KiB, number of passes,
/// number of lanes and key length.
pub uninterp spec fn argon2id_key(
    passphrase: Seq<u8>,
    salt: Seq<u8>,
    memory: u32,
    passes: u32,
    lanes: u32,
    len: usize,
) -> Seq<u8>;

/// Whether Argon2 takes a passphrase and a salt of these lengths.
pub open spec fn argon2_accepts(passphrase: nat, salt: nat) -> bool {
    passphrase <= 0xffff_ffff && 8 <= salt && salt <= 0xffff_ffff
}

/// Calls `argon2::Argon2::hash_password_into` for Argon2id, version 1.3. It succeeds where the
/// parameters are in range, the salt has at least 8 bytes and neither the salt nor the passphrase
/// has more than 2^32 - 1.
#[verifier::external_body]
pub(crate) fn argon2id(
    passphrase: &[u8],
    salt: &[u8],
    memory: u32,
    passes: u32,
    lanes: u32,
    len: usize,
) -> (r: Option<Vec<u8>>)
    requires
        1 <= lanes <= 0xff_ffff,
        memory >= 8 * lanes,
        passes >= 1,
        4 <= len <= 0xffff_ffff,
    ensures
        r is Some <==> argon2_accepts(passphrase@.len(), salt@.len()),
        r is Some ==> r->0@ == argon2id_key(passphrase@, salt@, memory, passes, lanes, len),
        r is Some ==> r->0@.len() == len,
{
    let params = Params::new(memory, passes, lanes, Some(len)).ok()?;
    let mut key = vec![0u8; len];
    let argon2 = Argon2::new(Algorithm::Argon2id, Version::V0x13, params);
    argon2.hash_password_into(passphrase, salt, &mut key).ok()?;
    Some(key)
}

/// The key of the given length that HKDF-SHA-256 without salt expands from key material for a
/// purpose.
pub uninterp spec fn hkdf_key(material: Seq<u8>, info: Seq<u8>, len: usize) -> Seq<u8>;

/// Calls `hkdf::Hkdf::expand` of `Hkdf::<Sha256>::new` without salt, which gives up to 255 times
/// 32 bytes.
#[verifier::external_body]
pub(crate) fn hkdf_sha256(material: &[u8], info: &[u8], len: usize) -> (r: Vec<u8>)
    requires
        len <= 8160,
    ensures
        r@ == hkdf_key(material@, info@, len),
        r@.len() == len,
{
    let mut key = vec![0u8; len];
    let _ = Hkdf::<Sha256>::new(None, material).expand(info, &mut key);
    key
}

/// The most bytes that AES-GCM encrypts in one message.
pub const AES_GCM_LIMIT: u64 = 0x10_0000_0000;

/// What AES-256-GCM makes of a plaintext: the ciphertext followed by the tag.
pub uninterp spec fn aes_gcm_sealed(key: Seq<u8>, nonce: Seq<u8>, plaintext: Seq<u8>) -> Seq<u8>;

/// The plaintext of what AES-256-GCM made, or nothing where it was made with another key or nonce
/// or has been changed.
pub uninterp spec fn aes_gcm_opened(key: Seq<u8>, nonce: Seq<u8>, sealed: Seq<u8>) -> Option<
    Seq<u8>,
>;

/// Calls `encrypt` of `aes_gcm::Aes256Gcm`. It succeeds for up to 2^36 bytes, and what it gives is
/// decrypted to the same bytes again.
#[verifier::external_body]
pub(crate) fn aes_gcm_seal(key: &[u8], nonce: &[u8], plaintext: &[u8]) -> (r: Option<Vec<u8>>)
    requires
        key@.len() == 32,
        nonce@.len() == 12,
    ensures
        r is Some <==> plaintext@.len() <= AES_GCM_LIMIT,
        r is Some ==> r->0@ == aes_gcm_sealed(key@, nonce@, plaintext@),
        r is Some ==> aes_gcm_opened(key@, nonce@, r->0@) == Some(plaintext@),
{
    Aes256Gcm::new_from_slice(key).ok()?.encrypt(Nonce::from_slice(nonce), plaintext).ok()
}

/// Calls `decrypt` of `aes_gcm::Aes256Gcm`.
#[verifier::external_body]
pub(crate) fn aes_gcm_open(key: &[u8], nonce: &[u8], sealed: &[u8]) -> (r: Option<Vec<u8>>)
    requires
        key@.len() == 32,
        nonce@.len() == 12,
    ensures
        aes_gcm_opened(key@, nonce@, sealed@) == match r {
            Some(v) => Some(v@),
            None => None,
        },
{
    Aes256Gcm::new_from_slice(key).ok()?.decrypt(Nonce::from_slice(nonce), sealed).ok()
}

/// The Ed25519 signature of a message under a secret key.
pub uninterp spec fn ed25519_signature(secret: Seq<u8>, message: Seq<u8>) -> Seq<u8>;

/// Calls `sign` of `ed25519_dalek::SigningKey`; a signature has 64 bytes and does not depend on
/// chance.
#[verifier::external_body]
pub(crate) fn ed25519_sign(secret: &[u8; 32], message: &[u8]) -> (r: Vec<u8>)
    ensures
        r@ == ed25519_signature(secret@, message@),
        r@.len() == 64,
{
    SigningKey::from_bytes(secret).sign(message).to_bytes().to_vec()
}

/// Calls `fill_bytes` of `rand::rngs::OsRng`: that many bytes, of which nothing else is
/// known. It panics where the system has no source of randomness.
#[verifier::external_body]
pub(crate) fn random_bytes(n: usize) -> (r: Vec<u8>)
    ensures
        r@.len() == n,
{
    let mut bytes = vec![0u8; n];
    OsRng.fill_bytes(&mut bytes);
    bytes
}

} // verus!
