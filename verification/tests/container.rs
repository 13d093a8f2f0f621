use rand::RngCore;
use secure_signer::crypto::decrypt_and_sign_with_mode;
use secure_signer::kdf::derive_key;
use secure_signer::{EncryptedKeyContainer, LockingMode, SignerError};

fn random_seed() -> [u8; 32] {
    let mut seed = [0u8; 32];
    rand::rngs::OsRng.fill_bytes(&mut seed);
    seed
}

fn b64(bytes: &[u8]) -> String {
    base64::Engine::encode(&base64::engine::general_purpose::STANDARD, bytes)
}

fn b64_decode(text: &str) -> Vec<u8> {
    base64::Engine::decode(&base64::engine::general_purpose::STANDARD, text).unwrap()
}

#[test]
fn test_container_json_roundtrip() {
    let seed = random_seed();
    let container =
        EncryptedKeyContainer::encrypt_with_mode(&seed, "pw", LockingMode::Permissive).unwrap();
    let json = container.to_json().unwrap();

    let back = EncryptedKeyContainer::from_json(&json).unwrap();
    assert_eq!(back.version, container.version);
    assert_eq!(back.salt, container.salt);
    assert_eq!(back.nonce, container.nonce);
    assert_eq!(back.ciphertext, container.ciphertext);
    assert_eq!(back.public_key, container.public_key);
}

#[test]
fn test_container_json_shape() {
    let seed = random_seed();
    let container =
        EncryptedKeyContainer::encrypt_with_mode(&seed, "pw", LockingMode::Permissive).unwrap();
    let json = container.to_json().unwrap();

    assert!(json.starts_with("{\"version\":1,\"salt\":\""));
    assert!(json.ends_with("\"}"));
    assert_eq!(b64_decode(&container.salt).len(), 32);
    assert_eq!(b64_decode(&container.nonce).len(), 12);
    assert_eq!(b64_decode(&container.ciphertext).len(), 48);
}

#[test]
fn test_malformed_json_rejected() {
    let result = decrypt_and_sign_with_mode("not a container", "pw", b"msg", LockingMode::Permissive);
    assert!(matches!(result, Err(SignerError::ContainerError(_))));
}

#[test]
fn test_unknown_version_rejected() {
    let seed = random_seed();
    let mut container =
        EncryptedKeyContainer::encrypt_with_mode(&seed, "pw", LockingMode::Permissive).unwrap();
    container.version = 2;
    let json = container.to_json().unwrap();

    let result = decrypt_and_sign_with_mode(&json, "pw", b"msg", LockingMode::Permissive);
    assert!(matches!(result, Err(SignerError::ContainerError(_))));
}

#[test]
fn test_invalid_base64_rejected() {
    let seed = random_seed();
    let mut container =
        EncryptedKeyContainer::encrypt_with_mode(&seed, "pw", LockingMode::Permissive).unwrap();
    container.salt = String::from("!!!not base64!!!");
    let json = container.to_json().unwrap();

    let result = decrypt_and_sign_with_mode(&json, "pw", b"msg", LockingMode::Permissive);
    assert!(matches!(result, Err(SignerError::SerializationError(_))));
}

#[test]
fn test_wrong_nonce_length_rejected() {
    let seed = random_seed();
    let mut container =
        EncryptedKeyContainer::encrypt_with_mode(&seed, "pw", LockingMode::Permissive).unwrap();
    container.nonce = b64(&[0u8; 13]);
    let json = container.to_json().unwrap();

    let result = decrypt_and_sign_with_mode(&json, "pw", b"msg", LockingMode::Permissive);
    assert!(matches!(result, Err(SignerError::ContainerError(_))));
}

#[test]
fn test_tampered_ciphertext_rejected() {
    let seed = random_seed();
    let container =
        EncryptedKeyContainer::encrypt_with_mode(&seed, "pw", LockingMode::Permissive).unwrap();

    let ct = b64_decode(&container.ciphertext);
    for flip in [0usize, ct.len() / 2, ct.len() - 1] {
        let mut tampered = ct.clone();
        tampered[flip] ^= 0x01;
        let mut c = container.clone();
        c.ciphertext = b64(&tampered);
        let json = c.to_json().unwrap();
        let result = decrypt_and_sign_with_mode(&json, "pw", b"msg", LockingMode::Permissive);
        assert!(matches!(result, Err(SignerError::DecryptionFailed)));
    }
}

#[test]
fn test_tampered_salt_rejected() {
    let seed = random_seed();
    let container =
        EncryptedKeyContainer::encrypt_with_mode(&seed, "pw", LockingMode::Permissive).unwrap();

    let mut salt = b64_decode(&container.salt);
    salt[7] ^= 0x80;
    let mut c = container.clone();
    c.salt = b64(&salt);
    let json = c.to_json().unwrap();

    let result = decrypt_and_sign_with_mode(&json, "pw", b"msg", LockingMode::Permissive);
    assert!(matches!(result, Err(SignerError::DecryptionFailed)));
}

#[test]
fn test_tampered_nonce_rejected() {
    let seed = random_seed();
    let container =
        EncryptedKeyContainer::encrypt_with_mode(&seed, "pw", LockingMode::Permissive).unwrap();

    let mut nonce = b64_decode(&container.nonce);
    nonce[0] ^= 0x01;
    let mut c = container.clone();
    c.nonce = b64(&nonce);
    let json = c.to_json().unwrap();

    let result = decrypt_and_sign_with_mode(&json, "pw", b"msg", LockingMode::Permissive);
    assert!(matches!(result, Err(SignerError::DecryptionFailed)));
}

#[test]
fn test_encrypt_rejects_bad_lengths() {
    for len in [0usize, 16, 31, 33, 63, 65] {
        let key = vec![1u8; len];
        let result = EncryptedKeyContainer::encrypt_with_mode(&key, "pw", LockingMode::Permissive);
        assert!(matches!(result, Err(SignerError::InvalidKeyFormat(n)) if n == len));
    }
}

#[test]
fn test_keypair_encoding_keeps_only_seed() {
    let seed = random_seed();
    let mut keypair = [0u8; 64];
    keypair[..32].copy_from_slice(&seed);
    rand::rngs::OsRng.fill_bytes(&mut keypair[32..]);

    let from_pair =
        EncryptedKeyContainer::encrypt_with_mode(&keypair, "pw", LockingMode::Permissive).unwrap();
    let from_seed =
        EncryptedKeyContainer::encrypt_with_mode(&seed, "pw", LockingMode::Permissive).unwrap();

    // Salt and nonce differ, but the derived identity depends on the seed alone.
    assert_eq!(from_pair.public_key, from_seed.public_key);
}

#[test]
fn test_fresh_salt_and_nonce_per_encryption() {
    let seed = random_seed();
    let a = EncryptedKeyContainer::encrypt_with_mode(&seed, "pw", LockingMode::Permissive).unwrap();
    let b = EncryptedKeyContainer::encrypt_with_mode(&seed, "pw", LockingMode::Permissive).unwrap();
    assert_ne!(a.salt, b.salt);
    assert_ne!(a.nonce, b.nonce);
}

#[test]
fn test_multi_digit_version_roundtrip() {
    let container = EncryptedKeyContainer {
        version: 200,
        salt: String::from("c2FsdA=="),
        nonce: String::from("bm9uY2U="),
        ciphertext: String::from("Y3Q="),
        public_key: None,
    };
    let json = container.to_json().unwrap();
    assert!(json.starts_with("{\"version\":200,"));
    let back = EncryptedKeyContainer::from_json(&json).unwrap();
    assert_eq!(back.version, 200);
    assert!(back.public_key.is_none());
}

#[test]
fn test_noncanonical_number_rejected() {
    let json = "{\"version\":01,\"salt\":\"a\",\"nonce\":\"b\",\"ciphertext\":\"c\"}";
    assert!(EncryptedKeyContainer::from_json(json).is_err());
}

#[test]
fn test_whitespace_in_record_rejected() {
    let json = "{ \"version\":1,\"salt\":\"a\",\"nonce\":\"b\",\"ciphertext\":\"c\"}";
    assert!(EncryptedKeyContainer::from_json(json).is_err());
}

#[test]
fn test_trailing_text_rejected() {
    let seed = random_seed();
    let container =
        EncryptedKeyContainer::encrypt_with_mode(&seed, "pw", LockingMode::Permissive).unwrap();
    let mut json = container.to_json().unwrap();
    json.push(' ');
    assert!(EncryptedKeyContainer::from_json(&json).is_err());
}

#[test]
fn test_to_json_rejects_quoted_field() {
    let container = EncryptedKeyContainer {
        version: 1,
        salt: String::from("bad\"salt"),
        nonce: String::from("bm9uY2U="),
        ciphertext: String::from("Y3Q="),
        public_key: None,
    };
    assert!(matches!(
        container.to_json(),
        Err(SignerError::SerializationError(_))
    ));

    let with_escape = EncryptedKeyContainer {
        version: 1,
        salt: String::from("c2FsdA=="),
        nonce: String::from("back\\slash"),
        ciphertext: String::from("Y3Q="),
        public_key: None,
    };
    assert!(matches!(
        with_escape.to_json(),
        Err(SignerError::SerializationError(_))
    ));
}

#[test]
fn test_derive_key_deterministic() {
    let salt = [3u8; 32];
    let a = derive_key(b"passphrase", &salt, LockingMode::Permissive).unwrap();
    let b = derive_key(b"passphrase", &salt, LockingMode::Permissive).unwrap();
    assert_eq!(a.as_slice(), b.as_slice());

    let other_salt = [4u8; 32];
    let c = derive_key(b"passphrase", &other_salt, LockingMode::Permissive).unwrap();
    assert_ne!(a.as_slice(), c.as_slice());
}

#[test]
fn test_derive_key_matches_reference() {
    let salt = [9u8; 32];
    let derived = derive_key(b"cross-check", &salt, LockingMode::Permissive).unwrap();

    let params = argon2::Params::new(65536, 3, 4, Some(32)).unwrap();
    let ctx = argon2::Argon2::new(argon2::Algorithm::Argon2id, argon2::Version::V0x13, params);
    let mut expected = [0u8; 32];
    ctx.hash_password_into(b"cross-check", &salt, &mut expected)
        .unwrap();

    assert_eq!(derived.as_slice(), &expected);
}

#[test]
fn test_derive_key_rejects_short_salt() {
    let result = derive_key(b"pw", &[1u8; 4], LockingMode::Permissive);
    assert!(matches!(result, Err(SignerError::KeyDerivationFailed(_))));
}
