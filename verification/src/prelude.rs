//! Re-exports of the entry points most callers need.

pub use crate::crypto::{
    create_encrypted_key_container, decrypt_and_sign, decrypt_and_sign_evm, EVMSigningResult,
    EncryptedKeyContainer,
};
pub use crate::error::SignerError;
pub use crate::secure_buffer::SecureBuffer;
