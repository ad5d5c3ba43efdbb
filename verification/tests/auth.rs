use base64::engine::general_purpose::STANDARD;
use base64::Engine;
use construct_tui::auth::{
    authenticate_request, authenticated, new_device_result, public_keys, restored_plain,
    sign_prekey, updated_session, AuthTokens, DeviceKeys, RegistrationStep, SigningError,
};
use construct_tui::config::Session;
use ed25519_dalek::{Signer, SigningKey, Verifier};

fn keys() -> DeviceKeys {
    let signing = SigningKey::from_bytes(&[3u8; 32]);
    DeviceKeys {
        signing_secret: [3u8; 32],
        signing_public: signing.verifying_key().to_bytes().to_vec(),
        identity_secret: [4u8; 32],
        identity_public: vec![40; 32],
        spk_secret: [5u8; 32],
        spk_public: vec![50; 32],
    }
}

fn tokens() -> AuthTokens {
    AuthTokens {
        user_id: "u".to_string(),
        access_token: "access".to_string(),
        refresh_token: "refresh".to_string(),
        expires_at: 1_700_000_000,
    }
}

fn session() -> Session {
    Session {
        signing_key_hex: "03".repeat(32),
        identity_key_hex: "04".repeat(32),
        device_id: "dev".to_string(),
        user_id: "u".to_string(),
        access_token: "old".to_string(),
        refresh_token: "old".to_string(),
        expires_at: 1,
        spk_key_hex: "05".repeat(32),
        spk_sig_hex: "06".repeat(64),
    }
}

#[test]
fn pre_key_is_signed_behind_the_prologue() {
    let prologue = b"prologue".to_vec();
    let signature = sign_prekey(&keys(), &prologue);
    let mut message = prologue;
    message.extend_from_slice(&[50; 32]);
    let signing = SigningKey::from_bytes(&[3u8; 32]);
    assert_eq!(signature, signing.sign(&message).to_bytes().to_vec());
    let signature = ed25519_dalek::Signature::from_slice(&signature).unwrap();
    assert!(signing.verifying_key().verify(&message, &signature).is_ok());
}

#[test]
fn server_is_told_public_keys_only() {
    let told = public_keys(&keys(), &vec![60; 64]);
    assert_eq!(told.verifying_key, STANDARD.encode(keys().signing_public));
    assert_eq!(told.identity_public, STANDARD.encode([40; 32]));
    assert_eq!(told.signed_prekey_public, STANDARD.encode([50; 32]));
    assert_eq!(told.signed_prekey_signature, STANDARD.encode([60; 64]));
    assert_eq!(told.crypto_suite, "Curve25519+Ed25519");
    let mut other = keys();
    other.identity_secret = [99; 32];
    other.spk_secret = [98; 32];
    let told_other = public_keys(&other, &vec![60; 64]);
    assert_eq!(told.identity_public, told_other.identity_public);
    assert_eq!(told.signed_prekey_public, told_other.signed_prekey_public);
}

#[test]
fn new_device_has_a_session() {
    let result = new_device_result(&keys(), &vec![6; 64], "dev", &tokens());
    assert_eq!(result.user_id, "u");
    assert_eq!(result.device_id, "dev");
    assert_eq!(result.access_token, "access");
    let s = result.session.unwrap();
    assert_eq!(s.signing_key_hex, "03".repeat(32));
    assert_eq!(s.identity_key_hex, "04".repeat(32));
    assert_eq!(s.spk_key_hex, "05".repeat(32));
    assert_eq!(s.spk_sig_hex, "06".repeat(64));
    assert_eq!(s.refresh_token, "refresh");
    assert_eq!(s.expires_at, 1_700_000_000);
}

#[test]
fn tokens_are_put_into_a_session() {
    let updated = updated_session(&session(), &tokens());
    assert_eq!(updated.access_token, "access");
    assert_eq!(updated.refresh_token, "refresh");
    assert_eq!(updated.expires_at, 1_700_000_000);
    assert_eq!(updated.signing_key_hex, session().signing_key_hex);
    let (result, saved) = restored_plain(&session(), &tokens());
    assert!(result.session.is_none());
    assert_eq!(result.access_token, "access");
    assert_eq!(saved.access_token, "access");
    let result = authenticated(&session(), &tokens());
    assert_eq!(result.device_id, "dev");
    assert_eq!(result.session.unwrap().refresh_token, "refresh");
}

#[test]
fn authentication_is_signed() {
    let request = authenticate_request("dev", &"03".repeat(32), 1234).ok().unwrap();
    assert_eq!(request.device_id, "dev");
    assert_eq!(request.timestamp, 1234);
    let signing = SigningKey::from_bytes(&[3u8; 32]);
    let signature = signing.sign(b"KonstruktAuth-v1\ndev\n1234");
    assert_eq!(request.signature, STANDARD.encode(signature.to_bytes()));
    let negative = authenticate_request("dev", &"03".repeat(32), -5).ok().unwrap();
    let signature = signing.sign(b"KonstruktAuth-v1\ndev\n-5");
    assert_eq!(negative.signature, STANDARD.encode(signature.to_bytes()));
}

#[test]
fn bad_signing_keys_are_refused() {
    let error = authenticate_request("dev", "zz", 1).err().unwrap();
    assert_eq!(error.message(), "invalid signing key hex: Invalid character 'z' at position 0");
    let error = authenticate_request("dev", "abc", 1).err().unwrap();
    assert_eq!(error.message(), "invalid signing key hex: Odd number of digits");
    let error = authenticate_request("dev", "ab", 1).err().unwrap();
    assert!(matches!(error, SigningError::Length));
    assert_eq!(error.message(), "signing key must be 32 bytes");
}

#[test]
fn registration_has_seven_steps() {
    let steps = [
        RegistrationStep::SigningKey,
        RegistrationStep::IdentityKey,
        RegistrationStep::SignedPreKey,
        RegistrationStep::SignPreKey,
        RegistrationStep::Connect,
        RegistrationStep::ProofOfWork,
        RegistrationStep::Register,
    ];
    for (i, step) in steps.iter().enumerate() {
        assert_eq!(step.index(), i);
    }
}
