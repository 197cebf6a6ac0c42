//! Hashing, random nonces and clock readings used to sign requests.
use vstd::prelude::*;
use vstd::utf8::encode_utf8;

use rand::Rng;
use sha2::Digest;

use crate::text::{hex_lower, i64_to_decimal, is_lower_hex_digit, lemma_lower_hex_shape, lower_hex, push_char, signed_decimal};

verus! {

/// The SHA-256 digest of a byte sequence.
pub uninterp spec fn sha256(data: Seq<u8>) -> Seq<u8>;

/// Hashes bytes with SHA-256.
///
/// Trusted: `sha2::Sha256::digest`. The result is the 32-byte SHA-256 digest of
/// the input; it depends on the input alone.
#[verifier::external_body]
pub(crate) fn sha256_digest(data: &[u8]) -> (res: Vec<u8>)
    ensures
        res@ == sha256(data@),
        res@.len() == 32,
{
    sha2::Sha256::digest(data).to_vec()
}

/// The lower-case hex SHA-256 digest of a string's UTF-8 bytes.
pub open spec fn sha256_hex_of(s: Seq<char>) -> Seq<char> {
    lower_hex(sha256(encode_utf8(s)))
}

/// Hashes a string's UTF-8 bytes with SHA-256 and renders the digest as
/// lower-case hex (64 characters).
pub fn sha256_hex(input: &str) -> (res: String)
    ensures
        res@ == sha256_hex_of(input@),
        res@.len() == 64,
        forall|i: int| 0 <= i < res@.len() ==> is_lower_hex_digit(#[trigger] res@[i]),
{
    let digest = sha256_digest(input.as_bytes());
    proof {
        lemma_lower_hex_shape(digest@);
    }
    hex_lower(digest.as_slice())
}

/// An ASCII letter or digit, the alphabet of nonces.
pub open spec fn is_alphanumeric(c: char) -> bool {
    ('0' <= c && c <= '9') || ('A' <= c && c <= 'Z') || ('a' <= c && c <= 'z')
}

/// The length of a nonce.
pub const NONCE_LEN: usize = 32;

/// A nonce: `NONCE_LEN` ASCII letters and digits.
pub open spec fn is_nonce(s: Seq<char>) -> bool {
    s.len() == NONCE_LEN && forall|i: int| 0 <= i < s.len() ==> is_alphanumeric(#[trigger] s[i])
}

/// Draws one random ASCII letter or digit.
///
/// Trusted: `rand::Rng::sample` with `rand::distributions::Alphanumeric` on the
/// thread-local generator. Its source shows that it returns a byte from
/// `A`-`Z`, `a`-`z`, `0`-`9`; which one is left to chance.
#[verifier::external_body]
fn sample_alphanumeric() -> (res: char)
    ensures
        is_alphanumeric(res),
{
    char::from(rand::thread_rng().sample(rand::distributions::Alphanumeric))
}

/// A random nonce of `NONCE_LEN` ASCII letters and digits.
pub fn random_nonce() -> (res: String)
    ensures
        is_nonce(res@),
{
    let mut res = String::new();
    for i in 0..NONCE_LEN
        invariant
            res@.len() == i,
            forall|j: int| 0 <= j < res@.len() ==> is_alphanumeric(#[trigger] res@[j]),
    {
        let c = sample_alphanumeric();
        push_char(&mut res, c);
    }
    res
}

/// Reads the clock: milliseconds since the Unix epoch.
///
/// Trusted: `chrono::Utc::now().timestamp_millis()`. Nothing is stated of the
/// value: it is the time of the call.
#[verifier::external_body]
pub(crate) fn now_millis() -> (res: i64) {
    chrono::Utc::now().timestamp_millis()
}

/// Reads the clock: whole seconds since the Unix epoch.
///
/// Trusted: `chrono::Utc::now().timestamp()`. Nothing is stated of the value:
/// it is the time of the call.
#[verifier::external_body]
pub(crate) fn now_secs() -> (res: i64) {
    chrono::Utc::now().timestamp()
}

/// The current time in milliseconds since the Unix epoch, in decimal.
pub fn timestamp_millis_text() -> (res: String)
    ensures
        exists|t: i64| res@ == signed_decimal(t as int),
{
    let t = now_millis();
    i64_to_decimal(t)
}

} // verus!
