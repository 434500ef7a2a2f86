//! The cryptographic primitives pairing relies on: standard base64 (the
//! `base64` crate), HMAC-SHA256 (`ring`) and random numbers (`rand`).
//! Each item here is trusted: its contract restates what the crate documents.

use vstd::prelude::*;

use base64::Engine;
use rand::Rng;

verus! {

#[verifier::external_type_specification]
#[verifier::external_body]
pub struct ExDecodeError(base64::DecodeError);

#[verifier::external_type_specification]
#[verifier::external_body]
pub struct ExUnspecified(ring::error::Unspecified);

#[verifier::external_type_specification]
#[verifier::external_body]
pub struct ExThreadRng(rand::rngs::ThreadRng);

/// Standard (padded) base64 text of a byte sequence.
pub uninterp spec fn base64_encoding(bytes: Seq<u8>) -> Seq<char>;

/// The bytes that a text decodes to under standard base64, if it is valid.
pub uninterp spec fn base64_decoding(text: Seq<char>) -> Option<Seq<u8>>;

/// HMAC-SHA256 tag of `data` under `key`.
pub uninterp spec fn hmac_sha256(key: Seq<u8>, data: Seq<u8>) -> Seq<u8>;

/// Inputs longer than this are beyond what HMAC-SHA256 can hash (the
/// message length in bits must fit 64 bits, and HMAC prepends a block).
pub open spec fn hmac_data_limit() -> int {
    0x1000_0000_0000_0000
}

/// `base64::engine::general_purpose::STANDARD.encode`: the base64 text of
/// `bytes`, four ASCII characters for every started group of three bytes
/// (the standard engine pads). The crate's round-trip tests show that
/// decoding the text gives back the same bytes. It panics when the output
/// length overflows `usize`, which `requires` excludes.
#[verifier::external_body]
pub(crate) fn base64_encode(bytes: &[u8]) -> (text: String)
    requires
        (bytes@.len() / 3) * 4 + 4 <= usize::MAX,
    ensures
        text@ == base64_encoding(bytes@),
        base64_decoding(text@) == Some(bytes@),
        text@.len() == 4 * ((bytes@.len() + 2) / 3),
        vstd::utf8::is_ascii_chars(text@),
{
    base64::engine::general_purpose::STANDARD.encode(bytes)
}

/// `base64::engine::general_purpose::STANDARD.decode`: the bytes that `text`
/// encodes, or the crate's error when it is not valid standard base64. The
/// crate decodes into a buffer of its conservative estimate, three bytes per
/// started group of four input bytes, which bounds the output length.
#[verifier::external_body]
pub(crate) fn base64_decode(text: &str) -> (bytes: Result<Vec<u8>, base64::DecodeError>)
    ensures
        match bytes {
            Ok(v) => base64_decoding(text@) == Some(v@) && v@.len() <= (text.len() / 4 + 1) * 3,
            Err(_) => base64_decoding(text@) is None,
        },
{
    base64::engine::general_purpose::STANDARD.decode(text)
}

/// `ring::hmac::sign` with a `ring::hmac::HMAC_SHA256` key built from `key`:
/// the 32-byte HMAC-SHA256 tag of `data`. It panics on inputs too long to
/// hash, which `requires` excludes.
#[verifier::external_body]
pub(crate) fn hmac_sha256_sign(key: &[u8], data: &[u8]) -> (tag: Vec<u8>)
    requires
        data@.len() < hmac_data_limit(),
    ensures
        tag@ == hmac_sha256(key@, data@),
        tag@.len() == 32,
{
    let k = ring::hmac::Key::new(ring::hmac::HMAC_SHA256, key);
    ring::hmac::sign(&k, data).as_ref().to_vec()
}

/// `ring::hmac::verify` with a `ring::hmac::HMAC_SHA256` key built from
/// `key`: `Ok` exactly when `tag` is the HMAC-SHA256 tag of `data`, for data
/// short enough to hash; longer data is always rejected.
#[verifier::external_body]
pub(crate) fn hmac_sha256_verify(key: &[u8], data: &[u8], tag: &[u8]) -> (r: Result<
    (),
    ring::error::Unspecified,
>)
    ensures
        r is Ok ==> tag@ == hmac_sha256(key@, data@),
        (data@.len() < hmac_data_limit() && tag@ == hmac_sha256(key@, data@)) ==> r is Ok,
{
    let k = ring::hmac::Key::new(ring::hmac::HMAC_SHA256, key);
    ring::hmac::verify(&k, data, tag)
}

/// `rand::thread_rng`: a handle on the thread-local random generator.
#[verifier::external_body]
pub(crate) fn thread_rng() -> (rng: rand::rngs::ThreadRng) {
    rand::thread_rng()
}

/// `Rng::gen_range` over the inclusive range `low..=high`: a random value in
/// that range. It panics on an empty range, which `requires` excludes.
#[verifier::external_body]
pub(crate) fn gen_range_inclusive(rng: &mut rand::rngs::ThreadRng, low: u32, high: u32) -> (n: u32)
    requires
        low <= high,
    ensures
        low <= n <= high,
{
    rng.gen_range(low..=high)
}

/// `Rng::fill` on a 32-byte array: 32 random bytes. Nothing is promised of
/// their values.
#[verifier::external_body]
pub(crate) fn random_32_bytes(rng: &mut rand::rngs::ThreadRng) -> (bytes: [u8; 32]) {
    let mut buf = [0u8; 32];
    rng.fill(&mut buf);
    buf
}

} // verus!
