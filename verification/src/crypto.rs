//! The envelope container and the decrypt-sign-destroy pipelines.
//!
//! A container holds a passphrase-encrypted 32-byte key seed at rest:
//! a random salt for key derivation, a random nonce, the authenticated
//! ciphertext of the seed, and the derived public identity. The pipelines
//! re-derive the symmetric key from the passphrase, decrypt the seed into a
//! guarded buffer, sign, and erase the buffer on every exit path.

use vstd::prelude::*;
use vstd::string::{StringExecFns, StringSliceAdditionalSpecFns};

use crate::aead::{aes256gcm_encrypt, aes256gcm_decrypt, aes256gcm_seal, AEAD_PLAINTEXT_MAX};
use crate::ed25519::{ed25519_public_key, ed25519_pubkey_of, ed25519_sign, ed25519_sig_of};
use crate::encoding::{
    base58_encode, base58_of, base64_decode, base64_encode, base64_of, hex_encode, hex_of,
    lemma_hex_of_len, quote_free,
};
use crate::error::SignerError;
use crate::json::{canon_json, emit_container, parse_container, text_quote_free};
use crate::kdf::{derive_key, kdf_of};
use crate::secp256k1::{
    keccak256, keccak256_of, secp256k1_pubkey_of, secp256k1_scalar_valid, secp256k1_sign_of,
    secp256k1_sign_prehash,
};
use crate::secure_buffer::{LockingMode, SecureBuffer};

verus! {

/// Byte length of a key seed.
pub const SEED_SIZE: usize = 32;

/// Byte length of a 64-byte secret-plus-public keypair encoding; only its
/// first half, the seed, is ever retained.
pub const KEYPAIR_SIZE: usize = 64;

/// Byte length of the random salt stored in a container.
pub const SALT_SIZE: usize = 32;

/// Byte length of the random nonce stored in a container.
pub const NONCE_SIZE: usize = 12;

/// The at-rest record of an encrypted key: immutable once constructed;
/// encryption produces a new container and decryption never mutates one.
#[derive(Clone)]
pub struct EncryptedKeyContainer {
    /// Format revision, currently 1. Unknown values are rejected on decrypt.
    pub version: u8,
    /// Salt for key derivation (base64 text of 32 random bytes).
    pub salt: String,
    /// Nonce of the authenticated cipher (base64 text of 12 random bytes).
    pub nonce: String,
    /// Authenticated ciphertext with tag of the 32-byte seed (base64 text).
    pub ciphertext: String,
    /// Derived public identity for verification (base58 text, optional).
    pub public_key: Option<String>,
}

/// The mathematical value of a container: its fields as character and byte
/// sequences.
#[verifier::ext_equal]
pub struct ContainerSpec {
    pub version: u8,
    pub salt: Seq<char>,
    pub nonce: Seq<char>,
    pub ciphertext: Seq<char>,
    pub public_key: Option<Seq<char>>,
}

impl View for EncryptedKeyContainer {
    type V = ContainerSpec;

    open spec fn view(&self) -> ContainerSpec {
        ContainerSpec {
            version: self.version,
            salt: self.salt@,
            nonce: self.nonce@,
            ciphertext: self.ciphertext@,
            public_key: match self.public_key {
                Some(p) => Some(p@),
                None => None,
            },
        }
    }
}

/// Whether a container's text fields can stand unescaped inside the quoted
/// fields of the serialized record. Every container this library produces
/// satisfies this: its fields are base64 and base58 text.
pub open spec fn wf_container(c: ContainerSpec) -> bool {
    &&& quote_free(c.salt)
    &&& quote_free(c.nonce)
    &&& quote_free(c.ciphertext)
    &&& match c.public_key {
        Some(p) => quote_free(p),
        None => true,
    }
}

/// The container that encrypting `seed` under `pass` produces when the
/// random source hands out `salt` and `nonce`.
pub open spec fn container_model(seed: Seq<u8>, pass: Seq<u8>, salt: Seq<u8>, nonce: Seq<u8>) -> ContainerSpec {
    ContainerSpec {
        version: 1u8,
        salt: base64_of(salt),
        nonce: base64_of(nonce),
        ciphertext: base64_of(aes256gcm_seal(kdf_of(pass, salt), nonce, seed)),
        public_key: Some(base58_of(ed25519_pubkey_of(seed))),
    }
}

/// Result of an Ed25519 signing operation.
pub struct SigningResult {
    /// The 64-byte signature, base58-encoded.
    pub signature: String,
    /// A minimal single-signature transaction blob, base64-encoded; present
    /// only when the message is at least 3 bytes.
    pub signed_transaction: Option<String>,
    /// The signer's 32-byte public key, base58-encoded.
    pub public_key: String,
}

/// The mathematical value of a [`SigningResult`].
#[verifier::ext_equal]
pub struct SigningResultSpec {
    pub signature: Seq<char>,
    pub signed_transaction: Option<Seq<char>>,
    pub public_key: Seq<char>,
}

impl View for SigningResult {
    type V = SigningResultSpec;

    open spec fn view(&self) -> SigningResultSpec {
        SigningResultSpec {
            signature: self.signature@,
            signed_transaction: match self.signed_transaction {
                Some(t) => Some(t@),
                None => None,
            },
            public_key: self.public_key@,
        }
    }
}

/// The minimal signed-transaction layout: a one-byte signature count of 1,
/// the 64-byte signature, then the original message.
pub open spec fn signed_tx_bytes(sig: Seq<u8>, msg: Seq<u8>) -> Seq<u8> {
    seq![1u8] + sig + msg
}

/// What signing `msg` with the Ed25519 seed `seed` returns.
pub open spec fn ed25519_result_model(seed: Seq<u8>, msg: Seq<u8>) -> SigningResultSpec {
    SigningResultSpec {
        signature: base58_of(ed25519_sig_of(seed, msg)),
        signed_transaction: if msg.len() >= 3 {
            Some(base64_of(signed_tx_bytes(ed25519_sig_of(seed, msg), msg)))
        } else {
            None
        },
        public_key: base58_of(ed25519_pubkey_of(seed)),
    }
}

/// Result of an EVM (secp256k1) signing operation.
pub struct EVMSigningResult {
    /// The 65-byte recoverable signature r || s || v, as 0x-prefixed hex.
    pub signature: String,
    /// The signer's 20-byte EVM address, as 0x-prefixed lowercase hex.
    pub address: String,
    /// Recovery byte: the raw recovery id plus 27.
    pub v: u8,
}

/// The mathematical value of an [`EVMSigningResult`].
#[verifier::ext_equal]
pub struct EVMSigningResultSpec {
    pub signature: Seq<char>,
    pub address: Seq<char>,
    pub v: u8,
}

impl View for EVMSigningResult {
    type V = EVMSigningResultSpec;

    open spec fn view(&self) -> EVMSigningResultSpec {
        EVMSigningResultSpec { signature: self.signature@, address: self.address@, v: self.v }
    }
}

/// The 65-byte EVM wire signature assembled from the raw signing output
/// `sb` (64 signature bytes followed by the raw recovery id): r and s
/// verbatim, then v = recovery id + 27.
pub open spec fn evm_sig65(sb: Seq<u8>) -> Seq<u8> {
    sb.take(64).push((sb[64] + 27) as u8)
}

/// The EVM address text of a signing seed: 0x followed by the lowercase hex
/// of the last 20 bytes of the Keccak-256 digest of the uncompressed public
/// point without its leading format byte.
pub open spec fn evm_address_text(seed: Seq<u8>) -> Seq<char> {
    "0x"@ + hex_of(keccak256_of(secp256k1_pubkey_of(seed).skip(1)).skip(12))
}

/// What signing the prehash with the secp256k1 seed returns, given the raw
/// signing output `sb`.
pub open spec fn evm_result_model(seed: Seq<u8>, sb: Seq<u8>) -> EVMSigningResultSpec {
    EVMSigningResultSpec {
        signature: "0x"@ + hex_of(evm_sig65(sb)),
        address: evm_address_text(seed),
        v: (sb[64] + 27) as u8,
    }
}

/// Relies on rand::rngs::OsRng (RngCore::fill_bytes): fills the buffer from
/// the operating system's secure random source. Only the length is promised;
/// nothing can be said of the contents.
#[verifier::external_body]
fn random_bytes(n: usize) -> (r: Vec<u8>)
    ensures
        r@.len() == n,
{
    let mut v = vec![0u8; n];
    rand::RngCore::fill_bytes(&mut rand::rngs::OsRng, &mut v);
    v
}

/// Appends every byte of `src` to `dst`.
fn push_all(dst: &mut Vec<u8>, src: &[u8])
    ensures
        final(dst)@ == old(dst)@ + src@,
{
    proof {
        assert(old(dst)@ + src@.subrange(0, 0) =~= old(dst)@);
    }
    let mut k: usize = 0;
    while k < src.len()
        invariant
            k <= src@.len(),
            dst@ == old(dst)@ + src@.subrange(0, k as int),
        decreases src@.len() - k,
    {
        let b = src[k];
        dst.push(b);
        proof {
            assert(old(dst)@ + src@.subrange(0, k + 1) =~= (old(dst)@ + src@.subrange(
                0,
                k as int,
            )).push(src@[k as int]));
        }
        k += 1;
    }
    proof {
        assert(src@.subrange(0, src@.len() as int) =~= src@);
    }
}

/// Overwrites every byte of a plain vector with zero: for the short-lived
/// plaintext copies that the decrypting cipher call hands back, before they
/// are released.
fn wipe_vec(v: &mut Vec<u8>)
    ensures
        final(v)@ == Seq::new(old(v)@.len(), |i: int| 0u8),
{
    let n = v.len();
    let mut i: usize = 0;
    while i < n
        invariant
            i <= n,
            n == v@.len(),
            forall|j: int| 0 <= j < i ==> v@[j] == 0u8,
        decreases n - i,
    {
        v[i] = 0u8;
        i = i + 1;
    }
    proof {
        assert(v@ =~= Seq::new(old(v)@.len(), |i: int| 0u8));
    }
}

impl EncryptedKeyContainer {
    /// Encrypts a private key under a passphrase in `Strict` locking mode:
    /// a failure to pin the guarded buffers is fatal.
    pub fn encrypt(private_key: &[u8], passphrase: &str) -> (r: Result<Self, SignerError>)
        ensures
            r matches Ok(c) ==> wf_container(c@) && (exists|sb: Seq<u8>, nb: Seq<u8>|
                sb.len() == SALT_SIZE && nb.len() == NONCE_SIZE && c@ == #[trigger] container_model(
                    private_key@.take(32),
                    passphrase.spec_bytes(),
                    sb,
                    nb,
                )),
            private_key@.len() != SEED_SIZE && private_key@.len() != KEYPAIR_SIZE ==> (r matches Err(e)
                && e matches SignerError::InvalidKeyFormat(n) && n == private_key@.len()),
            r matches Err(e) ==> e is InvalidKeyFormat || e is MemoryLockFailure || e
                is KeyDerivationFailed,
    {
        Self::encrypt_with_mode(private_key, passphrase, LockingMode::Strict)
    }

    /// Encrypts a private key under a passphrase: validates the key length
    /// (32-byte seed or 64-byte keypair, of which only the seed is kept),
    /// draws a fresh random salt and nonce, derives the symmetric key,
    /// seals the seed, derives the Ed25519 public identity, and erases
    /// every intermediate secret before returning.
    pub fn encrypt_with_mode(private_key: &[u8], passphrase: &str, mode: LockingMode) -> (r: Result<Self, SignerError>)
        ensures
            r matches Ok(c) ==> wf_container(c@) && (exists|sb: Seq<u8>, nb: Seq<u8>|
                sb.len() == SALT_SIZE && nb.len() == NONCE_SIZE && c@ == #[trigger] container_model(
                    private_key@.take(32),
                    passphrase.spec_bytes(),
                    sb,
                    nb,
                )),
            private_key@.len() != SEED_SIZE && private_key@.len() != KEYPAIR_SIZE ==> (r matches Err(e)
                && e matches SignerError::InvalidKeyFormat(n) && n == private_key@.len()),
            r matches Err(e) ==> e is InvalidKeyFormat || e is MemoryLockFailure || e
                is KeyDerivationFailed,
            r matches Err(e) && e is MemoryLockFailure ==> mode is Strict,
            r matches Err(e) && e is InvalidKeyFormat ==> private_key@.len() != SEED_SIZE
                && private_key@.len() != KEYPAIR_SIZE,
            (private_key@.len() == SEED_SIZE || private_key@.len() == KEYPAIR_SIZE) && mode
                is Permissive && passphrase.spec_bytes().len() <= 0xFFFFFFFF ==> r is Ok,
    {
        let n = private_key.len();
        if n != SEED_SIZE && n != KEYPAIR_SIZE {
            return Err(SignerError::InvalidKeyFormat(n));
        }
        let seed = vstd::slice::slice_subrange(private_key, 0, SEED_SIZE);
        let mut seed_buf = match SecureBuffer::from_slice_with_mode(seed, mode) {
            Ok(b) => b,
            Err(e) => {
                return Err(e);
            },
        };
        let salt = random_bytes(SALT_SIZE);
        let nonce = random_bytes(NONCE_SIZE);
        let mut derived = match derive_key(passphrase.as_bytes(), salt.as_slice(), mode) {
            Ok(k) => k,
            Err(e) => {
                seed_buf.zeroize();
                return Err(e);
            },
        };
        let ciphertext = match aes256gcm_encrypt(&derived, nonce.as_slice(), seed_buf.as_slice()) {
            Ok(ct) => ct,
            Err(_) => {
                seed_buf.zeroize();
                derived.zeroize();
                return Err(SignerError::KeyDerivationFailed(String::from_str(
                    "cipher initialization failed",
                )));
            },
        };
        let pubkey = ed25519_public_key(&seed_buf);
        derived.zeroize();
        seed_buf.zeroize();
        let c = EncryptedKeyContainer {
            version: 1,
            salt: base64_encode(salt.as_slice()),
            nonce: base64_encode(nonce.as_slice()),
            ciphertext: base64_encode(ciphertext.as_slice()),
            public_key: Some(base58_encode(pubkey.as_slice())),
        };
        proof {
            assert(c@ =~= container_model(
                private_key@.take(32),
                passphrase.spec_bytes(),
                salt@,
                nonce@,
            ));
        }
        Ok(c)
    }

    /// Serializes the container to its canonical text record. Fails only
    /// when a field holds a quote or a backslash, which the unescaped
    /// record cannot carry; every container this library produces
    /// serializes.
    pub fn to_json(&self) -> (r: Result<String, SignerError>)
        ensures
            r matches Ok(s) ==> s@ == canon_json(self@) && wf_container(self@),
            r matches Err(e) ==> e is SerializationError && !wf_container(self@),
            wf_container(self@) ==> r is Ok,
    {
        let fields_ok = text_quote_free(self.salt.as_str()) && text_quote_free(
            self.nonce.as_str(),
        ) && text_quote_free(self.ciphertext.as_str()) && (match &self.public_key {
            Some(p) => text_quote_free(p.as_str()),
            None => true,
        });
        if !fields_ok {
            return Err(SignerError::SerializationError(String::from_str(
                "container fields must not contain quotes or escapes",
            )));
        }
        Ok(emit_container(self))
    }

    /// Reads a container from its canonical text record; any malformed
    /// text is rejected as a container error.
    pub fn from_json(json: &str) -> (r: Result<Self, SignerError>)
        ensures
            r matches Ok(c) ==> json@ == canon_json(c@) && wf_container(c@),
            forall|c: ContainerSpec|
                wf_container(c) && json@ == canon_json(c) ==> (r matches Ok(k) && k@ == c),
            r matches Err(e) ==> e is ContainerError,
    {
        match parse_container(json) {
            Some(c) => Ok(c),
            None => Err(
                SignerError::ContainerError(String::from_str("malformed container text")),
            ),
        }
    }
}

/// Encrypts a private key under a passphrase and hands back the serialized
/// container, in `Strict` locking mode.
pub fn create_encrypted_key_container(private_key: &[u8], passphrase: &str) -> (r: Result<String, SignerError>)
    ensures
        r matches Ok(s) ==> (exists|sb: Seq<u8>, nb: Seq<u8>|
            sb.len() == SALT_SIZE && nb.len() == NONCE_SIZE && wf_container(
                #[trigger] container_model(private_key@.take(32), passphrase.spec_bytes(), sb, nb),
            ) && s@ == canon_json(
                container_model(private_key@.take(32), passphrase.spec_bytes(), sb, nb),
            )),
        private_key@.len() != SEED_SIZE && private_key@.len() != KEYPAIR_SIZE ==> (r matches Err(e)
            && e matches SignerError::InvalidKeyFormat(n) && n == private_key@.len()),
        r matches Err(e) ==> e is InvalidKeyFormat || e is MemoryLockFailure || e
            is KeyDerivationFailed,
{
    create_encrypted_key_container_with_mode(private_key, passphrase, LockingMode::Strict)
}

/// Encrypts a private key under a passphrase and hands back the serialized
/// container.
pub fn create_encrypted_key_container_with_mode(private_key: &[u8], passphrase: &str, mode: LockingMode) -> (r: Result<String, SignerError>)
    ensures
        r matches Ok(s) ==> (exists|sb: Seq<u8>, nb: Seq<u8>|
            sb.len() == SALT_SIZE && nb.len() == NONCE_SIZE && wf_container(
                #[trigger] container_model(private_key@.take(32), passphrase.spec_bytes(), sb, nb),
            ) && s@ == canon_json(
                container_model(private_key@.take(32), passphrase.spec_bytes(), sb, nb),
            )),
        private_key@.len() != SEED_SIZE && private_key@.len() != KEYPAIR_SIZE ==> (r matches Err(e)
            && e matches SignerError::InvalidKeyFormat(n) && n == private_key@.len()),
        r matches Err(e) ==> e is InvalidKeyFormat || e is MemoryLockFailure || e
            is KeyDerivationFailed,
        r matches Err(e) && e is MemoryLockFailure ==> mode is Strict,
        (private_key@.len() == SEED_SIZE || private_key@.len() == KEYPAIR_SIZE) && mode
            is Permissive && passphrase.spec_bytes().len() <= 0xFFFFFFFF ==> r is Ok,
{
    let container = match EncryptedKeyContainer::encrypt_with_mode(private_key, passphrase, mode) {
        Ok(c) => c,
        Err(e) => {
            return Err(e);
        },
    };
    let text = match container.to_json() {
        Ok(s) => s,
        Err(e) => {
            return Err(e);
        },
    };
    proof {
        let (sb, nb) = choose|sb: Seq<u8>, nb: Seq<u8>|
            sb.len() == SALT_SIZE && nb.len() == NONCE_SIZE && container@
                == #[trigger] container_model(
                private_key@.take(32),
                passphrase.spec_bytes(),
                sb,
                nb,
            );
        assert(text@ == canon_json(container_model(
            private_key@.take(32),
            passphrase.spec_bytes(),
            sb,
            nb,
        )));
    }
    Ok(text)
}

/// Signs a message with the Ed25519 seed held in a guarded buffer: the
/// base58 signature and public identity, and for messages of at least 3
/// bytes the minimal single-signature transaction blob in base64.
pub(crate) fn sign_with_secure_key(secure_key: &SecureBuffer, transaction_bytes: &[u8]) -> (r: Result<SigningResult, SignerError>)
    ensures
        secure_key@.len() == SEED_SIZE ==> (r matches Ok(res) && res@ == ed25519_result_model(
            secure_key@,
            transaction_bytes@,
        )),
        secure_key@.len() != SEED_SIZE ==> (r matches Err(e) && e
            matches SignerError::InvalidKeyFormat(n) && n == secure_key@.len()),
{
    if secure_key.len() != SEED_SIZE {
        return Err(SignerError::InvalidKeyFormat(secure_key.len()));
    }
    let pubkey = ed25519_public_key(secure_key);
    let sig = ed25519_sign(secure_key, transaction_bytes);
    let signature = base58_encode(sig.as_slice());
    let public_key = base58_encode(pubkey.as_slice());
    let signed_transaction = if transaction_bytes.len() >= 3 {
        let mut tx: Vec<u8> = Vec::new();
        tx.push(1u8);
        push_all(&mut tx, sig.as_slice());
        push_all(&mut tx, transaction_bytes);
        proof {
            assert(tx@ =~= signed_tx_bytes(sig@, transaction_bytes@));
        }
        Some(base64_encode(tx.as_slice()))
    } else {
        None
    };
    let res = SigningResult { signature, signed_transaction, public_key };
    proof {
        assert(res@ =~= ed25519_result_model(secure_key@, transaction_bytes@));
    }
    Ok(res)
}

/// Signs a transaction message with a raw Ed25519 seed, in `Strict` locking
/// mode. Prefer `decrypt_and_sign` for the full secure workflow.
pub fn sign_transaction(private_key: &[u8], transaction_bytes: &[u8]) -> (r: Result<SigningResult, SignerError>)
    ensures
        r matches Ok(res) ==> private_key@.len() == SEED_SIZE && res@ == ed25519_result_model(
            private_key@,
            transaction_bytes@,
        ),
        r matches Err(e) ==> e is InvalidKeyFormat || e is MemoryLockFailure,
        r matches Err(e) && e is InvalidKeyFormat ==> private_key@.len() != SEED_SIZE,
{
    sign_transaction_with_mode(private_key, transaction_bytes, LockingMode::Strict)
}

/// Signs a transaction message with a raw Ed25519 seed: the seed is copied
/// into a guarded buffer, used, and erased.
pub fn sign_transaction_with_mode(private_key: &[u8], transaction_bytes: &[u8], mode: LockingMode) -> (r: Result<SigningResult, SignerError>)
    ensures
        r matches Ok(res) ==> private_key@.len() == SEED_SIZE && res@ == ed25519_result_model(
            private_key@,
            transaction_bytes@,
        ),
        r matches Err(e) ==> e is InvalidKeyFormat || e is MemoryLockFailure,
        r matches Err(e) && e is MemoryLockFailure ==> mode is Strict,
        r matches Err(e) && e is InvalidKeyFormat ==> private_key@.len() != SEED_SIZE,
        mode is Permissive && private_key@.len() == SEED_SIZE ==> r is Ok,
        mode is Permissive && private_key@.len() != SEED_SIZE ==> (r matches Err(e) && e
            matches SignerError::InvalidKeyFormat(n) && n == private_key@.len()),
{
    let mut secure_key = match SecureBuffer::from_slice_with_mode(private_key, mode) {
        Ok(b) => b,
        Err(e) => {
            return Err(e);
        },
    };
    let result = sign_with_secure_key(&secure_key, transaction_bytes);
    secure_key.zeroize();
    result
}

/// The 0x-prefixed lowercase hex EVM address of an uncompressed secp256k1
/// public point: the last 20 bytes of the Keccak-256 digest of the point
/// without its leading format byte.
fn evm_address_from_pubkey(pubkey: &[u8]) -> (r: String)
    requires
        pubkey@.len() == 65,
    ensures
        r@ == "0x"@ + hex_of(keccak256_of(pubkey@.skip(1)).skip(12)),
        r@.len() == 42,
{
    let body = vstd::slice::slice_subrange(pubkey, 1, 65);
    proof {
        assert(body@ =~= pubkey@.skip(1));
    }
    let hash = keccak256(body);
    let tail = vstd::slice::slice_subrange(hash.as_slice(), 12, 32);
    proof {
        assert(tail@ =~= keccak256_of(pubkey@.skip(1)).skip(12));
        lemma_hex_of_len(keccak256_of(pubkey@.skip(1)).skip(12));
        reveal_strlit("0x");
    }
    let hex_part = hex_encode(tail);
    let mut s = String::from_str("0x");
    s.append(hex_part.as_str());
    s
}

/// Signs a 32-byte transaction hash with the secp256k1 key held in a
/// guarded buffer: the 65-byte recoverable signature r || s || v and the
/// derived EVM address, both as 0x-prefixed hex, with v = recovery id + 27.
pub(crate) fn sign_evm_with_secure_key(secure_key: &SecureBuffer, message_hash: &[u8]) -> (r: Result<EVMSigningResult, SignerError>)
    ensures
        secure_key@.len() != SEED_SIZE ==> (r matches Err(e) && e
            matches SignerError::InvalidKeyFormat(n) && n == secure_key@.len()),
        secure_key@.len() == SEED_SIZE && message_hash@.len() != 32 ==> (r matches Err(e) && e
            is InvalidTransaction),
        secure_key@.len() == SEED_SIZE && message_hash@.len() == 32 && secp256k1_scalar_valid(
            secure_key@,
        ) ==> (secp256k1_sign_of(secure_key@, message_hash@) matches Some(sb) ==> (r matches Ok(
            res,
        ) && res@ == evm_result_model(secure_key@, sb))),
        secure_key@.len() == SEED_SIZE && message_hash@.len() == 32 && !(secp256k1_scalar_valid(
            secure_key@,
        ) && secp256k1_sign_of(secure_key@, message_hash@) is Some) ==> (r matches Err(e) && e
            is SigningFailed),
        r matches Ok(res) ==> res@.signature.len() == 132 && res@.address.len() == 42 && 27
            <= res@.v <= 30,
{
    if secure_key.len() != SEED_SIZE {
        return Err(SignerError::InvalidKeyFormat(secure_key.len()));
    }
    if message_hash.len() != 32 {
        return Err(SignerError::InvalidTransaction(String::from_str(
            "message hash must be 32 bytes",
        )));
    }
    let signed = match secp256k1_sign_prehash(secure_key, message_hash) {
        Ok(t) => t,
        Err(_) => {
            return Err(SignerError::SigningFailed(String::from_str(
                "the curve rejected the key or the signature",
            )));
        },
    };
    let (pubkey, sig64, recid) = signed;
    let address = evm_address_from_pubkey(pubkey.as_slice());
    let v = recid + 27;
    let mut sig65: Vec<u8> = Vec::new();
    push_all(&mut sig65, sig64.as_slice());
    sig65.push(v);
    let hex_sig = hex_encode(sig65.as_slice());
    let mut signature = String::from_str("0x");
    signature.append(hex_sig.as_str());
    let res = EVMSigningResult { signature, address, v };
    proof {
        let sb = sig64@.push(recid);
        assert(sb.take(64) =~= sig64@);
        assert(sig65@ =~= evm_sig65(sb));
        reveal_strlit("0x");
        lemma_hex_of_len(evm_sig65(sb));
        assert(res@ =~= evm_result_model(secure_key@, sb));
    }
    Ok(res)
}

/// Signs an EVM message hash with a raw secp256k1 key, in `Strict` locking
/// mode. Prefer `decrypt_and_sign_evm` for the full secure workflow.
pub fn sign_evm_transaction(private_key: &[u8], message_hash: &[u8]) -> (r: Result<EVMSigningResult, SignerError>)
    ensures
        r matches Ok(res) ==> private_key@.len() == SEED_SIZE && message_hash@.len() == 32
            && secp256k1_scalar_valid(private_key@) && (secp256k1_sign_of(
            private_key@,
            message_hash@,
        ) matches Some(sb) && res@ == evm_result_model(private_key@, sb)),
        r matches Ok(res) ==> res@.signature.len() == 132 && res@.address.len() == 42 && 27
            <= res@.v <= 30,
        r matches Err(e) ==> e is InvalidKeyFormat || e is InvalidTransaction || e is SigningFailed
            || e is MemoryLockFailure,
{
    sign_evm_transaction_with_mode(private_key, message_hash, LockingMode::Strict)
}

/// Signs an EVM message hash with a raw secp256k1 key: the key is copied
/// into a guarded buffer, used, and erased.
pub fn sign_evm_transaction_with_mode(private_key: &[u8], message_hash: &[u8], mode: LockingMode) -> (r: Result<EVMSigningResult, SignerError>)
    ensures
        r matches Ok(res) ==> private_key@.len() == SEED_SIZE && message_hash@.len() == 32
            && secp256k1_scalar_valid(private_key@) && (secp256k1_sign_of(
            private_key@,
            message_hash@,
        ) matches Some(sb) && res@ == evm_result_model(private_key@, sb)),
        r matches Ok(res) ==> res@.signature.len() == 132 && res@.address.len() == 42 && 27
            <= res@.v <= 30,
        r matches Err(e) ==> e is InvalidKeyFormat || e is InvalidTransaction || e is SigningFailed
            || e is MemoryLockFailure,
        r matches Err(e) && e is MemoryLockFailure ==> mode is Strict,
        mode is Permissive && private_key@.len() != SEED_SIZE ==> (r matches Err(e) && e
            matches SignerError::InvalidKeyFormat(n) && n == private_key@.len()),
        mode is Permissive && private_key@.len() == SEED_SIZE && message_hash@.len() != 32 ==> (r
            matches Err(e) && e is InvalidTransaction),
        mode is Permissive && private_key@.len() == SEED_SIZE && message_hash@.len() == 32
            && secp256k1_scalar_valid(private_key@) && secp256k1_sign_of(
            private_key@,
            message_hash@,
        ) is Some ==> r is Ok,
        mode is Permissive && private_key@.len() == SEED_SIZE && message_hash@.len() == 32 && !(
        secp256k1_scalar_valid(private_key@) && secp256k1_sign_of(private_key@, message_hash@)
            is Some) ==> (r matches Err(e) && e is SigningFailed),
{
    let mut secure_key = match SecureBuffer::from_slice_with_mode(private_key, mode) {
        Ok(b) => b,
        Err(e) => {
            return Err(e);
        },
    };
    let result = sign_evm_with_secure_key(&secure_key, message_hash);
    secure_key.zeroize();
    result
}

/// The record of an encryption: version 1, the base64 texts of a salt, a
/// nonce and a ciphertext, and an arbitrary optional public-identity text.
pub open spec fn enc_record(sb: Seq<u8>, nb: Seq<u8>, cb: Seq<u8>, pk: Option<Seq<char>>) -> ContainerSpec {
    ContainerSpec {
        version: 1u8,
        salt: base64_of(sb),
        nonce: base64_of(nb),
        ciphertext: base64_of(cb),
        public_key: pk,
    }
}

/// Decrypts a container with a passphrase and signs a Solana-style message,
/// in `Strict` locking mode.
pub fn decrypt_and_sign(container_json: &str, passphrase: &str, transaction_bytes: &[u8]) -> (r: Result<SigningResult, SignerError>)
    ensures
        r matches Ok(res) ==> (exists|seed: Seq<u8>, sb: Seq<u8>, nb: Seq<u8>, pk: Option<Seq<char>>|
            seed.len() == SEED_SIZE && 8 <= sb.len() && nb.len() == NONCE_SIZE && container_json@
                == canon_json(
                #[trigger] enc_record(
                    sb,
                    nb,
                    aes256gcm_seal(kdf_of(passphrase.spec_bytes(), sb), nb, seed),
                    pk,
                ),
            ) && res@ == ed25519_result_model(seed, transaction_bytes@)),
        r matches Err(e) ==> e is ContainerError || e is SerializationError || e
            is KeyDerivationFailed || e is MemoryLockFailure || e is DecryptionFailed || e
            is InvalidKeyFormat,
        (forall|c: ContainerSpec| wf_container(c) ==> container_json@ != canon_json(c)) ==> (r
            matches Err(e) && e is ContainerError),
        forall|c: ContainerSpec|
            wf_container(c) && container_json@ == canon_json(c) && c.version != 1 ==> (r
                matches Err(e) && e is ContainerError),
        forall|sb: Seq<u8>, nb: Seq<u8>, cb: Seq<u8>, pk: Option<Seq<char>>|
            nb.len() != NONCE_SIZE && wf_container(enc_record(sb, nb, cb, pk)) && container_json@
                == canon_json(#[trigger] enc_record(sb, nb, cb, pk)) ==> (r matches Err(e) && e
                is ContainerError),
        forall|c: ContainerSpec|
            wf_container(c) && container_json@ == canon_json(c) && c.version == 1 && ((forall|
                q: Seq<u8>,
            | c.salt != base64_of(q)) || (forall|q: Seq<u8>| c.nonce != base64_of(q)) || (forall|
                q: Seq<u8>,
            | c.ciphertext != base64_of(q))) ==> (r matches Err(e) && e is SerializationError),
{
    decrypt_and_sign_with_mode(container_json, passphrase, transaction_bytes, LockingMode::Strict)
}

/// Decrypts a container with a passphrase and signs a Solana-style message:
/// parses and validates the record, re-derives the symmetric key from the
/// stored salt, opens the authenticated ciphertext, moves the seed into a
/// guarded buffer, signs, and erases every secret on every exit path. A
/// wrong passphrase and tampered stored data fail alike, with
/// `DecryptionFailed` and nothing else.
pub fn decrypt_and_sign_with_mode(container_json: &str, passphrase: &str, transaction_bytes: &[u8], mode: LockingMode) -> (r: Result<SigningResult, SignerError>)
    ensures
        r matches Ok(res) ==> (exists|seed: Seq<u8>, sb: Seq<u8>, nb: Seq<u8>, pk: Option<Seq<char>>|
            seed.len() == SEED_SIZE && 8 <= sb.len() && nb.len() == NONCE_SIZE && container_json@
                == canon_json(
                #[trigger] enc_record(
                    sb,
                    nb,
                    aes256gcm_seal(kdf_of(passphrase.spec_bytes(), sb), nb, seed),
                    pk,
                ),
            ) && res@ == ed25519_result_model(seed, transaction_bytes@)),
        forall|seed: Seq<u8>, sb: Seq<u8>, nb: Seq<u8>|
            seed.len() == SEED_SIZE && sb.len() == SALT_SIZE && nb.len() == NONCE_SIZE
                && passphrase.spec_bytes().len() <= 0xFFFFFFFF && mode is Permissive
                && wf_container(#[trigger] container_model(seed, passphrase.spec_bytes(), sb, nb))
                && container_json@ == canon_json(
                container_model(seed, passphrase.spec_bytes(), sb, nb),
            ) ==> (r matches Ok(res) && res@ == ed25519_result_model(seed, transaction_bytes@)),
        forall|sb: Seq<u8>, nb: Seq<u8>, cb: Seq<u8>, pk: Option<Seq<char>>|
            8 <= sb.len() <= 0xFFFFFFFF && nb.len() == NONCE_SIZE && passphrase.spec_bytes().len()
                <= 0xFFFFFFFF && mode is Permissive && wf_container(enc_record(sb, nb, cb, pk))
                && container_json@ == canon_json(#[trigger] enc_record(sb, nb, cb, pk)) && (forall|
                p: Seq<u8>,
            |
                p.len() <= AEAD_PLAINTEXT_MAX ==> aes256gcm_seal(
                    kdf_of(passphrase.spec_bytes(), sb),
                    nb,
                    p,
                ) != cb) ==> (r matches Err(e) && e is DecryptionFailed),
        r matches Err(e) ==> e is ContainerError || e is SerializationError || e
            is KeyDerivationFailed || e is MemoryLockFailure || e is DecryptionFailed || e
            is InvalidKeyFormat,
        (forall|c: ContainerSpec| wf_container(c) ==> container_json@ != canon_json(c)) ==> (r
            matches Err(e) && e is ContainerError),
        forall|c: ContainerSpec|
            wf_container(c) && container_json@ == canon_json(c) && c.version != 1 ==> (r
                matches Err(e) && e is ContainerError),
        forall|sb: Seq<u8>, nb: Seq<u8>, cb: Seq<u8>, pk: Option<Seq<char>>|
            nb.len() != NONCE_SIZE && wf_container(enc_record(sb, nb, cb, pk)) && container_json@
                == canon_json(#[trigger] enc_record(sb, nb, cb, pk)) ==> (r matches Err(e) && e
                is ContainerError),
        forall|c: ContainerSpec|
            wf_container(c) && container_json@ == canon_json(c) && c.version == 1 && ((forall|
                q: Seq<u8>,
            | c.salt != base64_of(q)) || (forall|q: Seq<u8>| c.nonce != base64_of(q)) || (forall|
                q: Seq<u8>,
            | c.ciphertext != base64_of(q))) ==> (r matches Err(e) && e is SerializationError),
        r matches Err(e) && e is MemoryLockFailure ==> mode is Strict,
{
    let container = match EncryptedKeyContainer::from_json(container_json) {
        Ok(c) => c,
        Err(e) => {
            return Err(e);
        },
    };
    if container.version != 1 {
        return Err(SignerError::ContainerError(String::from_str("unknown container version")));
    }
    let salt_bytes = match base64_decode(container.salt.as_str()) {
        Ok(v) => v,
        Err(_) => {
            return Err(SignerError::SerializationError(String::from_str(
                "salt is not valid base64",
            )));
        },
    };
    let nonce_bytes = match base64_decode(container.nonce.as_str()) {
        Ok(v) => v,
        Err(_) => {
            return Err(SignerError::SerializationError(String::from_str(
                "nonce is not valid base64",
            )));
        },
    };
    let ct_bytes = match base64_decode(container.ciphertext.as_str()) {
        Ok(v) => v,
        Err(_) => {
            return Err(SignerError::SerializationError(String::from_str(
                "ciphertext is not valid base64",
            )));
        },
    };
    if nonce_bytes.len() != NONCE_SIZE {
        return Err(SignerError::ContainerError(String::from_str("nonce must be 12 bytes")));
    }
    let mut derived = match derive_key(passphrase.as_bytes(), salt_bytes.as_slice(), mode) {
        Ok(k) => k,
        Err(e) => {
            return Err(e);
        },
    };
    let plaintext = match aes256gcm_decrypt(
        &derived,
        nonce_bytes.as_slice(),
        ct_bytes.as_slice(),
    ) {
        Ok(p) => p,
        Err(_) => {
            derived.zeroize();
            return Err(SignerError::DecryptionFailed);
        },
    };
    derived.zeroize();
    let mut plaintext = plaintext;
    let mut seed_buf = match SecureBuffer::from_slice_with_mode(plaintext.as_slice(), mode) {
        Ok(b) => b,
        Err(e) => {
            wipe_vec(&mut plaintext);
            return Err(e);
        },
    };
    wipe_vec(&mut plaintext);
    let result = sign_with_secure_key(&seed_buf, transaction_bytes);
    seed_buf.zeroize();
    match result {
        Ok(res) => {
            proof {
                assert(container@ =~= enc_record(
                    salt_bytes@,
                    nonce_bytes@,
                    ct_bytes@,
                    container@.public_key,
                ));
            }
            Ok(res)
        },
        Err(e) => Err(e),
    }
}

/// Round trip of identities: the public identity that encryption stores in
/// the container and the identity that decrypt-and-sign reports are both
/// derived from the seed alone — the base58 text of its Ed25519 verifying
/// key, and for the EVM signer the address text of its secp256k1 point —
/// so the identity that comes out of a round trip equals the one derivable
/// directly from the seed.
pub proof fn lemma_round_trip_identity(seed: Seq<u8>, pass: Seq<u8>, salt: Seq<u8>, nonce: Seq<u8>, msg: Seq<u8>, sig: Seq<u8>)
    ensures
        container_model(seed, pass, salt, nonce).public_key == Some(
            ed25519_result_model(seed, msg).public_key,
        ),
        evm_result_model(seed, sig).address == evm_address_text(seed),
{
}

/// The recovery byte of an EVM signing result is the raw recovery id plus
/// 27, so it is 27 or 28 exactly when the recovery id is 0 or 1 — the only
/// values that occur unless the signature scalar r overflowed the group
/// order, which happens with negligible probability.
pub proof fn lemma_evm_v_values(seed: Seq<u8>, sb: Seq<u8>)
    requires
        sb.len() == 65,
        sb[64] <= 3,
    ensures
        evm_result_model(seed, sb).v == sb[64] + 27,
        sb[64] <= 1 <==> (evm_result_model(seed, sb).v == 27 || evm_result_model(seed, sb).v
            == 28),
{
}

/// Decrypts a container with a passphrase and signs a 32-byte EVM
/// transaction hash, in `Strict` locking mode.
pub fn decrypt_and_sign_evm(container_json: &str, passphrase: &str, message_hash: &[u8]) -> (r: Result<EVMSigningResult, SignerError>)
    ensures
        message_hash@.len() != 32 ==> (r matches Err(e) && e is InvalidTransaction),
        r matches Ok(res) ==> (exists|seed: Seq<u8>, sb: Seq<u8>, nb: Seq<u8>, pk: Option<Seq<char>>|
            seed.len() == SEED_SIZE && 8 <= sb.len() && nb.len() == NONCE_SIZE && container_json@
                == canon_json(
                #[trigger] enc_record(
                    sb,
                    nb,
                    aes256gcm_seal(kdf_of(passphrase.spec_bytes(), sb), nb, seed),
                    pk,
                ),
            ) && secp256k1_scalar_valid(seed) && (secp256k1_sign_of(seed, message_hash@)
                matches Some(sg) && res@ == evm_result_model(seed, sg))),
        r matches Ok(res) ==> res@.signature.len() == 132 && res@.address.len() == 42 && 27
            <= res@.v <= 30,
        r matches Err(e) ==> e is ContainerError || e is SerializationError || e
            is KeyDerivationFailed || e is MemoryLockFailure || e is DecryptionFailed || e
            is InvalidKeyFormat || e is InvalidTransaction || e is SigningFailed,
        (forall|c: ContainerSpec| wf_container(c) ==> container_json@ != canon_json(c))
            && message_hash@.len() == 32 ==> (r matches Err(e) && e is ContainerError),
        forall|c: ContainerSpec|
            wf_container(c) && container_json@ == canon_json(c) && c.version != 1
                && message_hash@.len() == 32 ==> (r matches Err(e) && e is ContainerError),
        forall|sb: Seq<u8>, nb: Seq<u8>, cb: Seq<u8>, pk: Option<Seq<char>>|
            nb.len() != NONCE_SIZE && wf_container(enc_record(sb, nb, cb, pk)) && container_json@
                == canon_json(#[trigger] enc_record(sb, nb, cb, pk)) && message_hash@.len() == 32
                ==> (r matches Err(e) && e is ContainerError),
        forall|c: ContainerSpec|
            wf_container(c) && container_json@ == canon_json(c) && c.version == 1
                && message_hash@.len() == 32 && ((forall|q: Seq<u8>| c.salt != base64_of(q)) || (
            forall|q: Seq<u8>| c.nonce != base64_of(q)) || (forall|q: Seq<u8>|
                c.ciphertext != base64_of(q))) ==> (r matches Err(e) && e is SerializationError),
{
    decrypt_and_sign_evm_with_mode(container_json, passphrase, message_hash, LockingMode::Strict)
}

/// Decrypts a container with a passphrase and signs a 32-byte EVM
/// transaction hash: the same decrypt-sign-erase pipeline as
/// `decrypt_and_sign_with_mode`, with the secp256k1 recoverable signer. The
/// hash length is validated before anything else; a wrong passphrase and
/// tampered stored data fail alike, with `DecryptionFailed` and nothing
/// else.
pub fn decrypt_and_sign_evm_with_mode(container_json: &str, passphrase: &str, message_hash: &[u8], mode: LockingMode) -> (r: Result<EVMSigningResult, SignerError>)
    ensures
        message_hash@.len() != 32 ==> (r matches Err(e) && e is InvalidTransaction),
        r matches Ok(res) ==> (exists|seed: Seq<u8>, sb: Seq<u8>, nb: Seq<u8>, pk: Option<Seq<char>>|
            seed.len() == SEED_SIZE && 8 <= sb.len() && nb.len() == NONCE_SIZE && container_json@
                == canon_json(
                #[trigger] enc_record(
                    sb,
                    nb,
                    aes256gcm_seal(kdf_of(passphrase.spec_bytes(), sb), nb, seed),
                    pk,
                ),
            ) && secp256k1_scalar_valid(seed) && (secp256k1_sign_of(seed, message_hash@)
                matches Some(sg) && res@ == evm_result_model(seed, sg))),
        r matches Ok(res) ==> res@.signature.len() == 132 && res@.address.len() == 42 && 27
            <= res@.v <= 30,
        forall|seed: Seq<u8>, sb: Seq<u8>, nb: Seq<u8>|
            seed.len() == SEED_SIZE && sb.len() == SALT_SIZE && nb.len() == NONCE_SIZE
                && message_hash@.len() == 32 && passphrase.spec_bytes().len() <= 0xFFFFFFFF && mode
                is Permissive && secp256k1_scalar_valid(seed) && secp256k1_sign_of(
                seed,
                message_hash@,
            ) is Some && wf_container(
                #[trigger] container_model(seed, passphrase.spec_bytes(), sb, nb),
            ) && container_json@ == canon_json(
                container_model(seed, passphrase.spec_bytes(), sb, nb),
            ) ==> (r matches Ok(res) && (secp256k1_sign_of(seed, message_hash@) matches Some(sg)
                && res@ == evm_result_model(seed, sg))),
        forall|sb: Seq<u8>, nb: Seq<u8>, cb: Seq<u8>, pk: Option<Seq<char>>|
            8 <= sb.len() <= 0xFFFFFFFF && nb.len() == NONCE_SIZE && message_hash@.len() == 32
                && passphrase.spec_bytes().len() <= 0xFFFFFFFF && mode is Permissive
                && wf_container(enc_record(sb, nb, cb, pk)) && container_json@ == canon_json(
                #[trigger] enc_record(sb, nb, cb, pk),
            ) && (forall|p: Seq<u8>|
                p.len() <= AEAD_PLAINTEXT_MAX ==> aes256gcm_seal(
                    kdf_of(passphrase.spec_bytes(), sb),
                    nb,
                    p,
                ) != cb) ==> (r matches Err(e) && e is DecryptionFailed),
        r matches Err(e) ==> e is ContainerError || e is SerializationError || e
            is KeyDerivationFailed || e is MemoryLockFailure || e is DecryptionFailed || e
            is InvalidKeyFormat || e is InvalidTransaction || e is SigningFailed,
        (forall|c: ContainerSpec| wf_container(c) ==> container_json@ != canon_json(c))
            && message_hash@.len() == 32 ==> (r matches Err(e) && e is ContainerError),
        forall|c: ContainerSpec|
            wf_container(c) && container_json@ == canon_json(c) && c.version != 1
                && message_hash@.len() == 32 ==> (r matches Err(e) && e is ContainerError),
        forall|sb: Seq<u8>, nb: Seq<u8>, cb: Seq<u8>, pk: Option<Seq<char>>|
            nb.len() != NONCE_SIZE && wf_container(enc_record(sb, nb, cb, pk)) && container_json@
                == canon_json(#[trigger] enc_record(sb, nb, cb, pk)) && message_hash@.len() == 32
                ==> (r matches Err(e) && e is ContainerError),
        forall|c: ContainerSpec|
            wf_container(c) && container_json@ == canon_json(c) && c.version == 1
                && message_hash@.len() == 32 && ((forall|q: Seq<u8>| c.salt != base64_of(q)) || (
            forall|q: Seq<u8>| c.nonce != base64_of(q)) || (forall|q: Seq<u8>|
                c.ciphertext != base64_of(q))) ==> (r matches Err(e) && e is SerializationError),
        r matches Err(e) && e is MemoryLockFailure ==> mode is Strict,
{
    if message_hash.len() != 32 {
        return Err(SignerError::InvalidTransaction(String::from_str(
            "message hash must be 32 bytes",
        )));
    }
    let container = match EncryptedKeyContainer::from_json(container_json) {
        Ok(c) => c,
        Err(e) => {
            return Err(e);
        },
    };
    if container.version != 1 {
        return Err(SignerError::ContainerError(String::from_str("unknown container version")));
    }
    let salt_bytes = match base64_decode(container.salt.as_str()) {
        Ok(v) => v,
        Err(_) => {
            return Err(SignerError::SerializationError(String::from_str(
                "salt is not valid base64",
            )));
        },
    };
    let nonce_bytes = match base64_decode(container.nonce.as_str()) {
        Ok(v) => v,
        Err(_) => {
            return Err(SignerError::SerializationError(String::from_str(
                "nonce is not valid base64",
            )));
        },
    };
    let ct_bytes = match base64_decode(container.ciphertext.as_str()) {
        Ok(v) => v,
        Err(_) => {
            return Err(SignerError::SerializationError(String::from_str(
                "ciphertext is not valid base64",
            )));
        },
    };
    if nonce_bytes.len() != NONCE_SIZE {
        return Err(SignerError::ContainerError(String::from_str("nonce must be 12 bytes")));
    }
    let mut derived = match derive_key(passphrase.as_bytes(), salt_bytes.as_slice(), mode) {
        Ok(k) => k,
        Err(e) => {
            return Err(e);
        },
    };
    let plaintext = match aes256gcm_decrypt(
        &derived,
        nonce_bytes.as_slice(),
        ct_bytes.as_slice(),
    ) {
        Ok(p) => p,
        Err(_) => {
            derived.zeroize();
            return Err(SignerError::DecryptionFailed);
        },
    };
    derived.zeroize();
    let mut plaintext = plaintext;
    let mut seed_buf = match SecureBuffer::from_slice_with_mode(plaintext.as_slice(), mode) {
        Ok(b) => b,
        Err(e) => {
            wipe_vec(&mut plaintext);
            return Err(e);
        },
    };
    wipe_vec(&mut plaintext);
    let result = sign_evm_with_secure_key(&seed_buf, message_hash);
    seed_buf.zeroize();
    match result {
        Ok(res) => {
            proof {
                assert(container@ =~= enc_record(
                    salt_bytes@,
                    nonce_bytes@,
                    ct_bytes@,
                    container@.public_key,
                ));
            }
            Ok(res)
        },
        Err(e) => Err(e),
    }
}


} // verus!
