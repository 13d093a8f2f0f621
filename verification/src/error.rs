use vstd::prelude::*;

verus! {

/// The typed errors of the signing core.
///
/// Every fallible operation returns one of these kinds; none is silently
/// swallowed. Authentication failure on decrypt is reported uniformly as
/// `DecryptionFailed`, whether the passphrase was wrong or the stored data
/// was corrupted: the two causes are deliberately indistinguishable so the
/// caller cannot be used as a decryption oracle.
#[derive(Debug, Clone)]
pub enum SignerError {
    /// A supplied key or seed has an unsupported byte length (the length is carried).
    InvalidKeyFormat(usize),
    /// Key-derivation parameters were rejected, or the derivation itself failed.
    KeyDerivationFailed(String),
    /// The authentication tag did not verify on decrypt: wrong passphrase or
    /// corrupted/tampered salt, nonce or ciphertext.
    DecryptionFailed,
    /// The underlying signature scheme rejected the operation.
    SigningFailed(String),
    /// A message or hash failed a scheme-specific shape check.
    InvalidTransaction(String),
    /// A container field could not be decoded.
    SerializationError(String),
    /// The container text is malformed, a field is missing or has the wrong
    /// shape, or the format version is not understood.
    ContainerError(String),
    /// A strict-mode buffer could not be pinned against paging.
    MemoryLockFailure,
}

} // verus!
