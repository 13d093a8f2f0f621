use rand::RngCore;
use secure_signer::crypto::{decrypt_and_sign_evm_with_mode, sign_evm_transaction_with_mode};
use secure_signer::{EncryptedKeyContainer, LockingMode, SignerError};

fn random_bytes32() -> [u8; 32] {
    let mut b = [0u8; 32];
    rand::rngs::OsRng.fill_bytes(&mut b);
    b
}

#[test]
fn test_evm_sign_transaction() {
    let seed = random_bytes32();
    let message_hash = random_bytes32();

    let result =
        sign_evm_transaction_with_mode(&seed, &message_hash, LockingMode::Permissive).unwrap();

    assert!(result.address.starts_with("0x"));
    assert_eq!(result.address.len(), 42);
    assert!(result.signature.starts_with("0x"));
    assert_eq!(result.signature.len(), 132);
    assert!(result.v == 27 || result.v == 28);
}

#[test]
fn test_evm_encrypt_decrypt_sign_roundtrip() {
    let seed = random_bytes32();
    let passphrase = "test_evm_passphrase";

    let container =
        EncryptedKeyContainer::encrypt_with_mode(&seed, passphrase, LockingMode::Permissive)
            .unwrap();
    let json = container.to_json().unwrap();

    let hash = random_bytes32();

    let result =
        decrypt_and_sign_evm_with_mode(&json, passphrase, &hash, LockingMode::Permissive).unwrap();

    assert!(result.address.starts_with("0x"));
    assert!(result.signature.starts_with("0x"));
}

#[test]
fn test_evm_wrong_passphrase_fails() {
    let seed = random_bytes32();

    let container =
        EncryptedKeyContainer::encrypt_with_mode(&seed, "correct", LockingMode::Permissive)
            .unwrap();
    let json = container.to_json().unwrap();

    let hash = [0u8; 32];
    let result = decrypt_and_sign_evm_with_mode(&json, "wrong", &hash, LockingMode::Permissive);
    assert!(matches!(result, Err(SignerError::DecryptionFailed)));
}

#[test]
fn test_evm_invalid_hash_size() {
    let seed = random_bytes32();

    let container =
        EncryptedKeyContainer::encrypt_with_mode(&seed, "pass", LockingMode::Permissive).unwrap();
    let json = container.to_json().unwrap();

    let bad_hash = [0u8; 16];
    let result = decrypt_and_sign_evm_with_mode(&json, "pass", &bad_hash, LockingMode::Permissive);
    assert!(result.is_err());
}

#[test]
fn test_evm_known_address() {
    // The secp256k1 private key 1 has the generator as its public point;
    // its EVM address is a well-known constant.
    let mut seed = [0u8; 32];
    seed[31] = 1;
    let hash = [0x5au8; 32];

    let result = sign_evm_transaction_with_mode(&seed, &hash, LockingMode::Permissive).unwrap();
    assert_eq!(result.address, "0x7e5f4552091a69125d5dfcb7b8c2659029395bdf");
}

#[test]
fn test_evm_signature_matches_curve() {
    let seed = random_bytes32();
    let hash = random_bytes32();

    let result = sign_evm_transaction_with_mode(&seed, &hash, LockingMode::Permissive).unwrap();

    let key = k256::ecdsa::SigningKey::from_slice(&seed).unwrap();
    let (sig, recid) = key.sign_prehash_recoverable(&hash).unwrap();

    let mut expected = String::from("0x");
    expected.push_str(&hex::encode(sig.to_bytes()));
    expected.push_str(&hex::encode([recid.to_byte() + 27]));
    assert_eq!(result.signature, expected);
    assert_eq!(result.v, recid.to_byte() + 27);
}

#[test]
fn test_evm_zero_key_rejected() {
    // Zero is not a usable secret scalar.
    let seed = [0u8; 32];
    let hash = [1u8; 32];

    let result = sign_evm_transaction_with_mode(&seed, &hash, LockingMode::Permissive);
    assert!(matches!(result, Err(SignerError::SigningFailed(_))));
}

#[test]
fn test_evm_overflowing_key_rejected() {
    // All-ones exceeds the secp256k1 group order.
    let seed = [0xffu8; 32];
    let hash = [1u8; 32];

    let result = sign_evm_transaction_with_mode(&seed, &hash, LockingMode::Permissive);
    assert!(matches!(result, Err(SignerError::SigningFailed(_))));
}

#[test]
fn test_evm_hash_length_error_kind() {
    let seed = random_bytes32();
    let result = sign_evm_transaction_with_mode(&seed, &[0u8; 31], LockingMode::Permissive);
    assert!(matches!(result, Err(SignerError::InvalidTransaction(_))));
}

#[test]
fn test_evm_wrong_key_length() {
    let result = sign_evm_transaction_with_mode(&[1u8; 16], &[0u8; 32], LockingMode::Permissive);
    assert!(matches!(result, Err(SignerError::InvalidKeyFormat(16))));
}
