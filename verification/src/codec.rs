//! Byte encodings and digests used for request hashes, grant hashes, keys and
//! signatures: standard Base64 (with padding) and SHA-256.

use vstd::prelude::*;

verus! {

/// The standard, padded Base64 text of a byte sequence.
pub uninterp spec fn base64_text(bytes: Seq<u8>) -> Seq<char>;

/// The SHA-256 digest of a byte sequence.
pub uninterp spec fn sha256_digest(bytes: Seq<u8>) -> Seq<u8>;

/// `base64::Engine::encode` with the `STANDARD` engine. The contract names the
/// text (`base64_text`), states its padded length, four characters for every
/// started group of three bytes, and that no other bytes have the same text
/// (decoding gives the bytes back).
#[verifier::external_body]
pub fn base64_encode(bytes: &[u8]) -> (r: String)
    ensures
        r@ == base64_text(bytes@),
        r@.len() == 4 * ((bytes@.len() + 2) / 3),
        forall|b: Seq<u8>| base64_text(b) == r@ ==> b == bytes@,
{
    base64::Engine::encode(&base64::engine::general_purpose::STANDARD, bytes)
}

/// `base64::Engine::decode` with the `STANDARD` engine, which requires
/// canonical padding and rejects non-zero trailing bits: it accepts exactly
/// the texts that `base64_encode` produces, and gives back the encoded bytes.
#[verifier::external_body]
pub fn base64_decode(text: &str) -> (r: Option<Vec<u8>>)
    ensures
        r is Some ==> base64_text(r->0@) == text@,
        forall|v: Seq<u8>| base64_text(v) == text@ ==> (r is Some && r->0@ == v),
{
    match base64::Engine::decode(&base64::engine::general_purpose::STANDARD, text) {
        Ok(v) => Some(v),
        Err(_) => None,
    }
}

/// `sha2::Sha256::digest`: the 32-byte SHA-256 digest, named `sha256_digest`.
#[verifier::external_body]
pub fn sha256(bytes: &[u8]) -> (r: Vec<u8>)
    ensures
        r@ == sha256_digest(bytes@),
        r@.len() == 32,
{
    <sha2::Sha256 as sha2::Digest>::digest(bytes).to_vec()
}

} // verus!
