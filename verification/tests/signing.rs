use ed25519_dalek::{Signer as _, Verifier as _};
use rand::RngCore;
use secure_signer::crypto::{decrypt_and_sign_with_mode, sign_transaction_with_mode};
use secure_signer::{EncryptedKeyContainer, LockingMode, VERSION};

fn random_seed() -> [u8; 32] {
    let mut seed = [0u8; 32];
    rand::rngs::OsRng.fill_bytes(&mut seed);
    seed
}

#[test]
fn test_encrypt_decrypt_roundtrip() {
    let seed = random_seed();
    let passphrase = "test_passphrase_123";

    let container =
        EncryptedKeyContainer::encrypt_with_mode(&seed, passphrase, LockingMode::Permissive)
            .unwrap();
    let json = container.to_json().unwrap();

    let message = b"test transaction message";

    let result =
        decrypt_and_sign_with_mode(&json, passphrase, message, LockingMode::Permissive).unwrap();

    let signing_key = ed25519_dalek::SigningKey::from_bytes(&seed);
    let public_key = signing_key.verifying_key();

    assert_eq!(
        result.public_key,
        bs58::encode(public_key.as_bytes()).into_string()
    );
}

#[test]
fn test_wrong_passphrase_fails() {
    let seed = random_seed();

    let container =
        EncryptedKeyContainer::encrypt_with_mode(&seed, "correct_password", LockingMode::Permissive)
            .unwrap();
    let json = container.to_json().unwrap();

    let result = decrypt_and_sign_with_mode(&json, "wrong_password", b"test", LockingMode::Permissive);
    assert!(matches!(
        result,
        Err(secure_signer::SignerError::DecryptionFailed)
    ));
}

#[test]
fn test_signature_verification() {
    let seed = random_seed();
    let message = b"Hello, Solana!";

    let result = sign_transaction_with_mode(&seed, message, LockingMode::Permissive).unwrap();

    let signing_key = ed25519_dalek::SigningKey::from_bytes(&seed);
    let signature_bytes = bs58::decode(&result.signature).into_vec().unwrap();
    let signature = ed25519_dalek::Signature::from_slice(&signature_bytes).unwrap();

    assert!(signing_key
        .verifying_key()
        .verify(message, &signature)
        .is_ok());
}

#[test]
fn test_version() {
    assert!(!VERSION.is_empty());
}

#[test]
fn test_signed_transaction_layout() {
    let seed = random_seed();
    let message = b"a short transaction body";

    let result = sign_transaction_with_mode(&seed, message, LockingMode::Permissive).unwrap();

    let blob = base64::Engine::decode(
        &base64::engine::general_purpose::STANDARD,
        result.signed_transaction.unwrap(),
    )
    .unwrap();
    let signature = bs58::decode(&result.signature).into_vec().unwrap();

    assert_eq!(blob.len(), 1 + 64 + message.len());
    assert_eq!(blob[0], 1u8);
    assert_eq!(&blob[1..65], signature.as_slice());
    assert_eq!(&blob[65..], message.as_slice());
}

#[test]
fn test_short_message_has_no_signed_transaction() {
    let seed = random_seed();

    let result = sign_transaction_with_mode(&seed, b"ab", LockingMode::Permissive).unwrap();
    assert!(result.signed_transaction.is_none());

    let signing_key = ed25519_dalek::SigningKey::from_bytes(&seed);
    let expected = signing_key.sign(b"ab");
    let got = bs58::decode(&result.signature).into_vec().unwrap();
    assert_eq!(got, expected.to_bytes().to_vec());
}

#[test]
fn test_sign_rejects_wrong_key_length() {
    let result = sign_transaction_with_mode(&[7u8; 31], b"msg", LockingMode::Permissive);
    assert!(matches!(
        result,
        Err(secure_signer::SignerError::InvalidKeyFormat(31))
    ));
}

#[test]
fn test_independent_signing_calls() {
    let n = 8;
    let seeds: Vec<[u8; 32]> = (0..n).map(|_| random_seed()).collect();
    let message = b"independence check";

    let results: Vec<_> = seeds
        .iter()
        .map(|seed| sign_transaction_with_mode(seed, message, LockingMode::Permissive).unwrap())
        .collect();

    for (seed, result) in seeds.iter().zip(results.iter()) {
        let signing_key = ed25519_dalek::SigningKey::from_bytes(seed);
        let expected_pk = bs58::encode(signing_key.verifying_key().as_bytes()).into_string();
        let expected_sig = bs58::encode(signing_key.sign(message).to_bytes()).into_string();
        assert_eq!(result.public_key, expected_pk);
        assert_eq!(result.signature, expected_sig);
    }
}
