//! The Ed25519 signer: builds a signing identity from a 32-byte seed held in
//! a guarded buffer, signs message bytes verbatim, and exposes the verifying
//! key. Both operations are deterministic functions of their inputs.

use vstd::prelude::*;

use crate::secure_buffer::SecureBuffer;

verus! {

/// The 32-byte Ed25519 verifying key derived from a 32-byte seed.
pub uninterp spec fn ed25519_pubkey_of(seed: Seq<u8>) -> Seq<u8>;

/// The 64-byte Ed25519 signature of a message under a 32-byte seed.
/// Ed25519 signing is deterministic, so this is a function of seed and
/// message alone.
pub uninterp spec fn ed25519_sig_of(seed: Seq<u8>, msg: Seq<u8>) -> Seq<u8>;

/// Relies on ed25519_dalek::SigningKey::from_bytes (infallible for a
/// 32-byte seed) and VerifyingKey::as_bytes: the 32-byte verifying key is a
/// function of the seed alone.
#[verifier::external_body]
pub(crate) fn ed25519_public_key(seed: &SecureBuffer) -> (r: Vec<u8>)
    requires
        seed@.len() == 32,
    ensures
        r@ == ed25519_pubkey_of(seed@),
        r@.len() == 32,
{
    let mut raw = [0u8; 32];
    raw.copy_from_slice(seed.as_slice());
    let key = ed25519_dalek::SigningKey::from_bytes(&raw);
    zeroize::Zeroize::zeroize(&mut raw);
    key.verifying_key().as_bytes().to_vec()
}

/// Relies on ed25519_dalek::SigningKey::from_bytes and the Signer::sign
/// impl for SigningKey (which never fails): Ed25519 signing is
/// deterministic, so the 64-byte signature is a function of the seed and
/// the message alone.
#[verifier::external_body]
pub(crate) fn ed25519_sign(seed: &SecureBuffer, message: &[u8]) -> (r: Vec<u8>)
    requires
        seed@.len() == 32,
    ensures
        r@ == ed25519_sig_of(seed@, message@),
        r@.len() == 64,
{
    let mut raw = [0u8; 32];
    raw.copy_from_slice(seed.as_slice());
    let key = ed25519_dalek::SigningKey::from_bytes(&raw);
    zeroize::Zeroize::zeroize(&mut raw);
    let sig = ed25519_dalek::Signer::sign(&key, message);
    sig.to_bytes().to_vec()
}

} // verus!
