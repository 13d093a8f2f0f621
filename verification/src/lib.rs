//! A memory-safe signing core for Solana (Ed25519) and EVM (secp256k1)
//! transactions.
//!
//! Private keys are stored at rest in a passphrase-encrypted envelope
//! container and exist in plaintext only inside a locked, zero-on-release
//! [`SecureBuffer`] for the duration of a single decrypt-or-sign operation.

use vstd::prelude::*;

pub mod aead;
pub mod crypto;
pub mod ed25519;
pub mod encoding;
pub mod error;
pub mod json;
pub mod kdf;
pub mod prelude;
pub mod secp256k1;
pub mod secure_buffer;

pub use crypto::{
    create_encrypted_key_container, decrypt_and_sign, sign_transaction, EncryptedKeyContainer,
    SigningResult,
};

pub use crypto::{decrypt_and_sign_evm, sign_evm_transaction, EVMSigningResult};

pub use error::SignerError;
pub use secure_buffer::{LockingMode, SecureBuffer};

verus! {

/// Library version.
pub const VERSION: &'static str = "0.1.0";

} // verus!
