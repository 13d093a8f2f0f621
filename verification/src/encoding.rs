//! Text encodings used by the container format and the signing results:
//! standard base64 for the container fields, base58 for Ed25519 identities
//! and signatures, lowercase hex for EVM signatures and addresses.

use vstd::prelude::*;

verus! {

/// Holds when a text contains neither a double quote nor a backslash, so it
/// can stand unescaped inside a quoted field of the container record.
pub open spec fn quote_free(s: Seq<char>) -> bool {
    forall|i: int| 0 <= i < s.len() ==> s[i] != '"' && s[i] != '\\'
}

/// The lowercase hex digit with value `d` (for `d < 16`).
pub open spec fn hex_digit(d: u8) -> char {
    "0123456789abcdef"@[d as int]
}

/// The lowercase hex encoding of `data`: each byte becomes two digits, high
/// nibble first.
pub open spec fn hex_of(data: Seq<u8>) -> Seq<char>
    decreases data.len(),
{
    if data.len() == 0 {
        Seq::empty()
    } else {
        hex_of(data.drop_last()) + seq![
            hex_digit(data.last() / 16),
            hex_digit(data.last() % 16),
        ]
    }
}

/// A hex encoding is exactly twice as long as its input.
pub proof fn lemma_hex_of_len(data: Seq<u8>)
    ensures
        hex_of(data).len() == 2 * data.len(),
    decreases data.len(),
{
    if data.len() > 0 {
        lemma_hex_of_len(data.drop_last());
    }
}

/// Relies on hex::encode: each input byte becomes its two lowercase hex
/// digits, high nibble first.
#[verifier::external_body]
pub(crate) fn hex_encode(data: &[u8]) -> (r: String)
    ensures
        r@ == hex_of(data@),
{
    hex::encode(data)
}

/// The standard (RFC 4648) base64 encoding with padding of a byte string,
/// as produced by base64's STANDARD engine.
pub uninterp spec fn base64_of(data: Seq<u8>) -> Seq<char>;

/// Relies on base64::Engine::encode with the STANDARD engine: the encoding
/// is a function of the input bytes alone, is injective, and uses only the
/// characters A-Z, a-z, 0-9, +, / and =.
#[verifier::external_body]
pub(crate) fn base64_encode(data: &[u8]) -> (r: String)
    ensures
        r@ == base64_of(data@),
        quote_free(r@),
        forall|q: Seq<u8>| base64_of(q) == r@ ==> q == data@,
{
    base64::Engine::encode(&base64::engine::general_purpose::STANDARD, data)
}

/// Relies on base64::Engine::decode with the STANDARD engine: it accepts
/// exactly the canonical encodings (padding required, trailing bits
/// rejected) and on them inverts the injective encoding.
#[verifier::external_body]
pub(crate) fn base64_decode(text: &str) -> (r: Result<Vec<u8>, ()>)
    ensures
        r matches Ok(p) ==> text@ == base64_of(p@),
        r matches Ok(p) ==> forall|q: Seq<u8>| base64_of(q) == text@ ==> q == p@,
        (exists|q: Seq<u8>| text@ == base64_of(q)) ==> r is Ok,
{
    base64::Engine::decode(&base64::engine::general_purpose::STANDARD, text).map_err(|_| ())
}

/// The base58 encoding (Bitcoin alphabet) of a byte string, as produced by
/// bs58::encode.
pub uninterp spec fn base58_of(data: Seq<u8>) -> Seq<char>;

/// Relies on bs58::encode with its default (Bitcoin) alphabet: the encoding
/// is a function of the input bytes alone, over an alphanumeric alphabet.
#[verifier::external_body]
pub(crate) fn base58_encode(data: &[u8]) -> (r: String)
    ensures
        r@ == base58_of(data@),
        quote_free(r@),
{
    bs58::encode(data).into_string()
}

} // verus!
