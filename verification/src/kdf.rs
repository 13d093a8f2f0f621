//! Passphrase-based key derivation: a deliberately slow, memory-hard
//! derivation of a 32-byte symmetric key from a passphrase and a salt.
//! Deterministic, so the key can be re-derived for decryption.

use vstd::prelude::*;

use crate::error::SignerError;
use crate::secure_buffer::{LockingMode, SecureBuffer};

verus! {

/// Memory cost of the derivation, in kibibytes (64 MiB).
pub const KDF_MEMORY_COST: u32 = 65536;

/// Number of derivation iterations.
pub const KDF_TIME_COST: u32 = 3;

/// Number of parallel lanes of the derivation.
pub const KDF_PARALLELISM: u32 = 4;

/// Byte length of the derived symmetric key.
pub const DERIVED_KEY_SIZE: usize = 32;

/// The Argon2id digest (version 0x13) of a passphrase and a salt under the
/// given memory cost, time cost, lane count and output length.
pub uninterp spec fn argon2id_of(
    pass: Seq<u8>,
    salt: Seq<u8>,
    m_cost: u32,
    t_cost: u32,
    lanes: u32,
    out_len: nat,
) -> Seq<u8>;

/// The symmetric key this library derives from a passphrase and a salt.
pub open spec fn kdf_of(pass: Seq<u8>, salt: Seq<u8>) -> Seq<u8> {
    argon2id_of(pass, salt, KDF_MEMORY_COST, KDF_TIME_COST, KDF_PARALLELISM, DERIVED_KEY_SIZE as nat)
}

/// Whether the derivation inputs are within the ranges the derivation
/// accepts; it never fails for other reasons.
pub open spec fn kdf_inputs_ok(pass: Seq<u8>, salt: Seq<u8>) -> bool {
    pass.len() <= 0xFFFFFFFF && 8 <= salt.len() <= 0xFFFFFFFF
}

/// Determinism of derivation: the derived symmetric key is a function of
/// the passphrase and the salt alone, so two derivations from identical
/// inputs yield byte-identical output.
pub proof fn lemma_derivation_deterministic(pass: Seq<u8>, salt: Seq<u8>, k1: Seq<u8>, k2: Seq<u8>)
    requires
        k1 == kdf_of(pass, salt),
        k2 == kdf_of(pass, salt),
    ensures
        k1 == k2,
{
}

/// Relies on argon2::Params::new and argon2::Argon2::hash_password_into with
/// algorithm Argon2id and version 0x13: the bytes written into `out` are a
/// function of the passphrase, the salt and the parameters alone; parameters
/// and input lengths are validated exactly as stated below, and on a
/// validation error nothing has been written.
#[verifier::external_body]
fn argon2id_fill(
    pass: &[u8],
    salt: &[u8],
    m_cost: u32,
    t_cost: u32,
    lanes: u32,
    out: &mut Vec<u8>,
) -> (r: Result<(), String>)
    requires
        lanes <= 0x1FFFFFFF,
    ensures
        r is Ok <==> (8 <= m_cost && lanes * 8 <= m_cost && 1 <= t_cost && 1 <= lanes && lanes <= 0xFFFFFF
            && 4 <= old(out)@.len() <= 0xFFFFFFFF && pass@.len() <= 0xFFFFFFFF && 8 <= salt@.len()
            <= 0xFFFFFFFF),
        r is Ok ==> final(out)@ == argon2id_of(
            pass@,
            salt@,
            m_cost,
            t_cost,
            lanes,
            old(out)@.len() as nat,
        ) && final(out)@.len() == old(out)@.len(),
        r is Err ==> final(out)@ == old(out)@,
{
    let params = match argon2::Params::new(m_cost, t_cost, lanes, Some(out.len())) {
        Ok(p) => p,
        Err(e) => {
            return Err(format!("{}", e));
        },
    };
    let ctx = argon2::Argon2::new(argon2::Algorithm::Argon2id, argon2::Version::V0x13, params);
    ctx.hash_password_into(pass, salt, out.as_mut_slice()).map_err(|e| format!("{}", e))
}

/// Derives the 32-byte symmetric key from `passphrase` and `salt` into a
/// guarded buffer. Deterministic: identical passphrase and salt always yield
/// the identical key. Never fails because of the passphrase's content, only
/// on out-of-range input lengths or a strict-mode pinning failure.
pub fn derive_key(passphrase: &[u8], salt: &[u8], mode: LockingMode) -> (r: Result<SecureBuffer, SignerError>)
    ensures
        r matches Ok(b) ==> b@ == kdf_of(passphrase@, salt@) && b@.len() == DERIVED_KEY_SIZE
            && kdf_inputs_ok(passphrase@, salt@),
        r matches Err(e) ==> (e is MemoryLockFailure && mode is Strict) || (e
            is KeyDerivationFailed && !kdf_inputs_ok(passphrase@, salt@)),
        mode is Permissive && kdf_inputs_ok(passphrase@, salt@) ==> r is Ok,
{
    let mut key = match SecureBuffer::with_mode(DERIVED_KEY_SIZE, mode) {
        Ok(b) => b,
        Err(e) => {
            return Err(e);
        },
    };
    let out = key.vec_mut();
    let filled = argon2id_fill(passphrase, salt, KDF_MEMORY_COST, KDF_TIME_COST, KDF_PARALLELISM, out);
    match filled {
        Ok(()) => Ok(key),
        Err(reason) => {
            key.zeroize();
            Err(SignerError::KeyDerivationFailed(reason))
        },
    }
}

} // verus!
