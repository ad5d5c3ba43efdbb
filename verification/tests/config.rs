use aes_gcm::aead::{Aead, KeyInit};
use aes_gcm::{Aes256Gcm, Nonce};
use argon2::{Algorithm, Argon2, Params, Version};
use base64::engine::general_purpose::STANDARD;
use base64::Engine;
use construct_tui::config::{
    config_dir, config_path, create_session_key, db_path, decrypt_session, default_server,
    derive_session_key, detect_session, encrypt_session, garbage, join, log_file_path,
    open_session_key, read_master_salt, seal_session, session_path, session_places, Config,
    ConfigError, EncryptedSession, SessionFile, SessionState, TransportConfig,
};
use construct_tui::secret::SecretBytes;
use hkdf::Hkdf;
use sha2::Sha256;

fn encrypted(salt: &str, nonce: &str, ciphertext: &str) -> EncryptedSession {
    EncryptedSession {
        v: 1,
        salt: salt.to_string(),
        nonce: nonce.to_string(),
        ciphertext: ciphertext.to_string(),
    }
}

#[test]
fn keys_are_derived_with_argon2id_and_hkdf() {
    let salt = [9u8; 16];
    let sk = derive_session_key(b"correct horse", salt).ok().unwrap();
    let params = Params::new(32_768, 3, 1, Some(32)).unwrap();
    let mut master = [0u8; 32];
    Argon2::new(Algorithm::Argon2id, Version::V0x13, params)
        .hash_password_into(b"correct horse", &salt, &mut master)
        .unwrap();
    let hkdf = Hkdf::<Sha256>::new(None, &master);
    let mut session = [0u8; 32];
    let mut database = [0u8; 32];
    hkdf.expand(b"construct-session-v1", &mut session).unwrap();
    hkdf.expand(b"construct-database-v1", &mut database).unwrap();
    assert_eq!(sk.keys.session.bytes().as_slice(), &session);
    assert_eq!(sk.keys.database.bytes().as_slice(), &database);
    assert_eq!(sk.master_salt, salt);
    assert_ne!(session, database);
}

#[test]
fn same_passphrase_gives_the_same_keys() {
    let a = create_session_key(b"pass").ok().unwrap();
    let b = derive_session_key(b"pass", a.master_salt).ok().unwrap();
    assert_eq!(a.keys.session.bytes(), b.keys.session.bytes());
    assert_eq!(a.keys.database.bytes(), b.keys.database.bytes());
    let c = derive_session_key(b"other", a.master_salt).ok().unwrap();
    assert_ne!(a.keys.session.bytes(), c.keys.session.bytes());
}

#[test]
fn saved_session_is_opened_with_its_passphrase() {
    let sk = create_session_key(b"pass").ok().unwrap();
    let text = SecretBytes::new(b"{\"user_id\":\"u\"}");
    let enc = encrypt_session(&text, &sk).ok().unwrap();
    assert_eq!(enc.v, 1);
    let file = SessionFile::Encrypted(enc);
    assert_eq!(read_master_salt(&file).ok().unwrap(), Some(sk.master_salt));
    let opened = open_session_key(b"pass", &file).ok().unwrap().unwrap();
    assert_eq!(opened.keys.database.bytes(), sk.keys.database.bytes());
    let wrong = open_session_key(b"guess", &file).ok().unwrap().unwrap();
    let SessionFile::Encrypted(enc) = file else {
        panic!("not encrypted");
    };
    assert_eq!(
        decrypt_session(&enc, &opened).ok().unwrap().bytes().as_slice(),
        b"{\"user_id\":\"u\"}"
    );
    assert!(matches!(decrypt_session(&enc, &wrong), Err(ConfigError::WrongKey)));
}

#[test]
fn session_is_sealed_with_aes_gcm() {
    let sk = derive_session_key(b"pass", [1u8; 16]).ok().unwrap();
    let nonce = vec![7u8; 12];
    let enc = seal_session(&SecretBytes::new(b"text"), &sk, &nonce).ok().unwrap();
    let cipher = Aes256Gcm::new_from_slice(sk.keys.session.bytes()).unwrap();
    let sealed = cipher.encrypt(Nonce::from_slice(&nonce), b"text".as_ref()).unwrap();
    assert_eq!(enc.salt, STANDARD.encode([1u8; 16]));
    assert_eq!(enc.nonce, "BwcHBwcHBwcHBwcH");
    assert_eq!(enc.ciphertext, STANDARD.encode(sealed));
}

#[test]
fn nonces_differ_between_saves() {
    let sk = derive_session_key(b"pass", [1u8; 16]).ok().unwrap();
    let a = encrypt_session(&SecretBytes::new(b"text"), &sk).ok().unwrap();
    let b = encrypt_session(&SecretBytes::new(b"text"), &sk).ok().unwrap();
    assert_ne!(a.nonce, b.nonce);
    assert_ne!(a.ciphertext, b.ciphertext);
    assert_eq!(a.salt, b.salt);
}

#[test]
fn damaged_sessions_are_refused() {
    let sk = derive_session_key(b"pass", [1u8; 16]).ok().unwrap();
    let message = |r: Result<SecretBytes, ConfigError>| r.err().unwrap().message();
    assert_eq!(message(decrypt_session(&encrypted("", "*", ""), &sk)), "bad nonce encoding");
    assert_eq!(
        message(decrypt_session(&encrypted("", "BwcHBwcHBwcHBwcH", "*"), &sk)),
        "bad ciphertext encoding"
    );
    assert_eq!(
        message(decrypt_session(&encrypted("", "Bw==", "Bw=="), &sk)),
        "unexpected nonce length: 1 (expected 12)"
    );
    assert_eq!(
        message(decrypt_session(&encrypted("", "BwcHBwcHBwcHBwcH", "Bw=="), &sk)),
        "Decryption failed — wrong passphrase?"
    );
}

#[test]
fn salt_is_read_or_refused() {
    let message = |f: &SessionFile| read_master_salt(f).err().unwrap().message();
    assert_eq!(read_master_salt(&SessionFile::Absent).ok().unwrap(), None);
    assert_eq!(message(&SessionFile::Other), "session file is not in encrypted format");
    assert_eq!(message(&SessionFile::Unreadable("denied".to_string())), "denied");
    assert_eq!(
        message(&SessionFile::Encrypted(encrypted("*", "", ""))),
        "bad salt encoding"
    );
    assert_eq!(
        message(&SessionFile::Encrypted(encrypted("BwcH", "", ""))),
        "unexpected salt length: 3 (expected 16)"
    );
    assert!(open_session_key(b"pass", &SessionFile::Absent).ok().unwrap().is_none());
    assert!(matches!(
        open_session_key(b"pass", &SessionFile::Other),
        Err(ConfigError::NotEncrypted)
    ));
}

#[test]
fn errors_have_messages() {
    assert_eq!(ConfigError::PassphraseTooLong.message(), "Argon2: password is too long");
    assert_eq!(ConfigError::SessionTooLong.message(), "AES-GCM encrypt failed");
}

#[test]
fn session_file_is_recognised() {
    assert_eq!(detect_session(&SessionFile::Absent), SessionState::Absent);
    assert_eq!(detect_session(&SessionFile::Unreadable(String::new())), SessionState::Absent);
    assert_eq!(detect_session(&SessionFile::Other), SessionState::Plaintext);
    assert_eq!(
        detect_session(&SessionFile::Encrypted(encrypted("", "", ""))),
        SessionState::Encrypted
    );
}

#[test]
fn defaults_are_used() {
    assert_eq!(default_server(), "https://construct.cc");
    let c = Config::default();
    assert_eq!(c.server, "https://construct.cc");
    assert_eq!(c.transport, TransportConfig::Direct);
    assert_eq!(TransportConfig::default(), TransportConfig::Direct);
}

#[test]
fn files_have_their_places() {
    assert_eq!(config_dir("/home/u/.config"), "/home/u/.config/construct-tui");
    assert_eq!(config_path("/home/u/.config/"), "/home/u/.config/construct-tui/config.json");
    assert_eq!(db_path("/d"), "/d/construct-tui/messages.db");
    assert_eq!(log_file_path(Some("/d")), "/d/construct-tui/konstrukt.log");
    assert_eq!(log_file_path(None), "./construct-tui/konstrukt.log");
    assert_eq!(join("", "a"), "a");
    let enc = "/c/construct-tui/session.enc".to_string();
    let old = "/c/construct-tui/session.json".to_string();
    assert_eq!(session_places("/c"), (enc.clone(), old.clone()));
    assert_eq!(session_path("/c", true, false), (enc.clone(), Some(old)));
    assert_eq!(session_path("/c", true, true), (enc.clone(), None));
    assert_eq!(session_path("/c", false, false), (enc.clone(), None));
    assert_eq!(session_path("/c", false, true), (enc, None));
}

#[test]
fn garbage_is_as_long_as_the_file() {
    assert!(garbage(0).is_empty());
    let a = garbage(64);
    assert_eq!(a.len(), 64);
    assert_ne!(a, garbage(64));
}

#[test]
fn secrets_are_held() {
    let s = SecretBytes::from_vec(vec![1, 2, 3]);
    assert_eq!(s.bytes(), &vec![1, 2, 3]);
    assert!(!s.is_empty());
    assert!(SecretBytes::new(b"").is_empty());
}
