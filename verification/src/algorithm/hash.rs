//! The fingerprint of a text: its SHA-256 digest in lower-case hexadecimal.

use sha2::{Digest, Sha256};
use vstd::prelude::*;
use vstd::utf8::encode_utf8;

verus! {

/// The SHA-256 digest of `message`.
pub uninterp spec fn sha256(message: Seq<u8>) -> Seq<u8>;

/// The hexadecimal digit that stands for `value`, which is below sixteen.
pub open spec fn hex_digit(value: int) -> char {
    "0123456789abcdef"@[value]
}

/// `bytes` in hexadecimal: for each byte two digits, the upper half first.
pub open spec fn hex_text(bytes: Seq<u8>) -> Seq<char> {
    Seq::new(
        2 * bytes.len(),
        |at: int|
            if at % 2 == 0 {
                hex_digit(bytes[at / 2] as int / 16)
            } else {
                hex_digit(bytes[at / 2] as int % 16)
            },
    )
}

/// `sha2::Sha256::digest`, the SHA-256 digest of a message computed in one
/// call. The contract only names the digest: it is a function of the message.
#[verifier::external_body]
fn sha256_digest(message: &[u8]) -> (digest: Vec<u8>)
    ensures
        digest@ == sha256(message@),
{
    Sha256::digest(message).to_vec()
}

/// `hex::encode`, which writes each byte as two lower-case hexadecimal digits,
/// the digit of the upper four bits before that of the lower four.
#[verifier::external_body]
fn hex_encode(data: &[u8]) -> (text: String)
    ensures
        text@ == hex_text(data@),
{
    hex::encode(data)
}

/// Writes a digest in lower-case hexadecimal.
pub fn digest_text(digest: &[u8]) -> (text: String)
    ensures
        text@ == hex_text(digest@),
{
    hex_encode(digest)
}

/// The fingerprint of `payload`: the SHA-256 digest of its bytes, in
/// lower-case hexadecimal.
pub fn hash_sha(payload: String) -> (fingerprint: String)
    ensures
        fingerprint@ == hex_text(sha256(encode_utf8(payload@))),
{
    let digest = sha256_digest(payload.as_str().as_bytes());
    digest_text(digest.as_slice())
}

} // verus!
