//! The secp256k1 ECDSA signer for EVM-style pre-hashed messages: produces a
//! recoverable signature over a caller-supplied 32-byte hash, and the
//! Keccak-256 digest used to derive the EVM address of the signing key.

use vstd::prelude::*;

use crate::secure_buffer::SecureBuffer;

verus! {

/// The order of the secp256k1 group.
pub open spec fn secp256k1_order() -> nat {
    0xFFFFFFFFFFFFFFFFFFFFFFFFFFFFFFFEBAAEDCE6AF48A03BBFD25E8CD0364141nat
}

/// The natural number a byte string denotes in big-endian order.
pub open spec fn be_bytes_as_nat(s: Seq<u8>) -> nat
    decreases s.len(),
{
    if s.len() == 0 {
        0
    } else {
        (be_bytes_as_nat(s.drop_last()) * 256 + s.last()) as nat
    }
}

/// Whether 32 bytes denote a usable secp256k1 secret scalar: nonzero and
/// below the group order.
pub open spec fn secp256k1_scalar_valid(seed: Seq<u8>) -> bool {
    seed.len() == 32 && 0 < be_bytes_as_nat(seed) < secp256k1_order()
}

/// The uncompressed SEC1 encoding (65 bytes, leading 0x04) of the public
/// point of a valid secret scalar.
pub uninterp spec fn secp256k1_pubkey_of(seed: Seq<u8>) -> Seq<u8>;

/// The recoverable ECDSA signature of a 32-byte prehash under a valid
/// secret scalar: 65 bytes, the low-S signature scalars r and s followed by
/// the raw recovery id. Signing is deterministic (RFC 6979 nonces), so this
/// is a function of scalar and prehash alone; `None` stands for the rare
/// inputs the scheme refuses (a zero nonce or signature scalar).
pub uninterp spec fn secp256k1_sign_of(seed: Seq<u8>, hash: Seq<u8>) -> Option<Seq<u8>>;

/// Relies on k256::ecdsa::SigningKey::{from_slice, verifying_key} and
/// SigningKey::sign_prehash_recoverable: key construction succeeds exactly
/// when the 32 bytes are a canonical nonzero scalar below the group order;
/// the uncompressed public point is a function of the scalar alone; signing
/// a 32-byte prehash is deterministic with a low-S signature and a raw
/// recovery id of at most 3.
#[verifier::external_body]
pub(crate) fn secp256k1_sign_prehash(seed: &SecureBuffer, hash: &[u8]) -> (r: Result<(Vec<u8>, Vec<u8>, u8), ()>)
    requires
        seed@.len() == 32,
        hash@.len() == 32,
    ensures
        r is Err ==> !(secp256k1_scalar_valid(seed@) && secp256k1_sign_of(seed@, hash@) is Some),
        secp256k1_scalar_valid(seed@) && secp256k1_sign_of(seed@, hash@) is Some ==> r is Ok,
        r matches Ok(t) ==> secp256k1_scalar_valid(seed@) && t.0@ == secp256k1_pubkey_of(seed@)
            && t.0@.len() == 65 && t.0@[0] == 4u8,
        r matches Ok(t) ==> secp256k1_sign_of(seed@, hash@) == Some(t.1@.push(t.2)) && t.1@.len()
            == 64 && t.2 <= 3,
{
    let key = match k256::ecdsa::SigningKey::from_slice(seed.as_slice()) {
        Ok(k) => k,
        Err(_) => {
            return Err(());
        },
    };
    let point = key.verifying_key().to_encoded_point(false);
    let (sig, recid) = match key.sign_prehash_recoverable(hash) {
        Ok(p) => p,
        Err(_) => {
            return Err(());
        },
    };
    Ok((point.as_bytes().to_vec(), sig.to_bytes().to_vec(), recid.to_byte()))
}

/// The 32-byte Keccak-256 digest of a byte string.
pub uninterp spec fn keccak256_of(data: Seq<u8>) -> Seq<u8>;

/// Relies on sha3::Keccak256: the 32-byte digest is a function of the input
/// bytes alone.
#[verifier::external_body]
pub(crate) fn keccak256(data: &[u8]) -> (r: Vec<u8>)
    ensures
        r@ == keccak256_of(data@),
        r@.len() == 32,
{
    let digest = <sha3::Keccak256 as sha3::Digest>::digest(data);
    digest.to_vec()
}

} // verus!
