//! The authenticated symmetric cipher of the envelope container:
//! AES-256-GCM with a 32-byte key and a 12-byte nonce, producing a
//! ciphertext with a 16-byte authentication tag appended.

use vstd::prelude::*;

use crate::secure_buffer::SecureBuffer;

verus! {

/// Largest plaintext the cipher accepts (2^36 bytes).
pub const AEAD_PLAINTEXT_MAX: u64 = 0x1000000000;

/// The AES-256-GCM ciphertext-with-tag for a 32-byte key, a 12-byte nonce
/// and a plaintext, with no associated data.
pub uninterp spec fn aes256gcm_seal(key: Seq<u8>, nonce: Seq<u8>, plaintext: Seq<u8>) -> Seq<u8>;

/// Relies on aes_gcm::Aes256Gcm (KeyInit::new_from_slice and Aead::encrypt):
/// for a 32-byte key and 12-byte nonce the ciphertext-with-tag is a function
/// of key, nonce and plaintext alone, is 16 bytes longer than the plaintext,
/// and is injective in the plaintext (the underlying counter-mode keystream
/// is a bijection); encryption refuses only plaintexts over 2^36 bytes.
#[verifier::external_body]
pub(crate) fn aes256gcm_encrypt(key: &SecureBuffer, nonce: &[u8], plaintext: &[u8]) -> (r: Result<Vec<u8>, ()>)
    requires
        key@.len() == 32,
        nonce@.len() == 12,
    ensures
        r matches Ok(ct) ==> ct@ == aes256gcm_seal(key@, nonce@, plaintext@) && ct@.len()
            == plaintext@.len() + 16 && (forall|q: Seq<u8>|
            q.len() <= AEAD_PLAINTEXT_MAX && aes256gcm_seal(key@, nonce@, q) == ct@ ==> q
                == plaintext@),
        plaintext@.len() <= AEAD_PLAINTEXT_MAX ==> r is Ok,
{
    let cipher = match <aes_gcm::Aes256Gcm as aes_gcm::KeyInit>::new_from_slice(key.as_slice()) {
        Ok(c) => c,
        Err(_) => {
            return Err(());
        },
    };
    aes_gcm::aead::Aead::encrypt(&cipher, aes_gcm::Nonce::from_slice(nonce), plaintext).map_err(
        |_| (),
    )
}

/// Relies on aes_gcm::Aes256Gcm (KeyInit::new_from_slice and Aead::decrypt):
/// decryption succeeds exactly on the ciphertexts that sealing under this
/// key and nonce produces (the tag recomputation passes if and only if the
/// input is such an output), and on success returns the unique plaintext
/// that seals to the input.
#[verifier::external_body]
pub(crate) fn aes256gcm_decrypt(key: &SecureBuffer, nonce: &[u8], ciphertext: &[u8]) -> (r: Result<Vec<u8>, ()>)
    requires
        key@.len() == 32,
        nonce@.len() == 12,
    ensures
        r matches Ok(p) ==> ciphertext@ == aes256gcm_seal(key@, nonce@, p@) && p@.len() + 16
            == ciphertext@.len() && p@.len() <= AEAD_PLAINTEXT_MAX && (forall|q: Seq<u8>|
            q.len() <= AEAD_PLAINTEXT_MAX && aes256gcm_seal(key@, nonce@, q) == ciphertext@ ==> q
                == p@),
        r is Err ==> (forall|q: Seq<u8>|
            q.len() <= AEAD_PLAINTEXT_MAX ==> aes256gcm_seal(key@, nonce@, q) != ciphertext@),
{
    let cipher = match <aes_gcm::Aes256Gcm as aes_gcm::KeyInit>::new_from_slice(key.as_slice()) {
        Ok(c) => c,
        Err(_) => {
            return Err(());
        },
    };
    aes_gcm::aead::Aead::decrypt(&cipher, aes_gcm::Nonce::from_slice(nonce), ciphertext).map_err(
        |_| (),
    )
}

} // verus!
