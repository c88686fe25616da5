//! Encryption, digests, encodings and randomness, each behind the outside
//! function that provides it.
use vstd::prelude::*;
use vstd::utf8::{decode_utf8, encode_utf8, valid_utf8};
use base64::Engine;

verus! {

/// The symmetric keys that protect provider secrets and login cookies: the id
/// of the active key and every key by id. A process builds it once at start
/// up and hands it to each call that encrypts or decrypts.
#[derive(Debug, Clone)]
pub struct EncKeySet {
    pub active: String,
    pub keys: Vec<(String, Vec<u8>)>,
}

/// The length of the fixed part of an encrypted value's header: version,
/// algorithm, header length and chunk size. Shorter input is no encrypted value.
pub const ENC_HEADER_LEN: usize = 6;

/// The largest plaintext, in bytes, for which encryption is known to succeed.
pub const ENC_PLAIN_MAX: usize = 0xffff_ffff;

/// Whether encrypting with the active key can succeed: its id takes 2 to
/// 65529 bytes, and the first key of that id is 32 bytes long.
pub open spec fn active_key_usable(keys: Seq<(Seq<char>, Seq<u8>)>, active: Seq<char>) -> bool {
    &&& 2 <= encode_utf8(active).len() <= 65529
    &&& exists|i: int|
        0 <= i < keys.len() && #[trigger] keys[i].0 == active && keys[i].1.len() == 32 && forall|j: int|
            0 <= j < i ==> keys[j].0 != active
}

/// What decrypting `ct` with the keys `keys` yields, if it succeeds.
pub uninterp spec fn decryption_of(keys: Seq<(Seq<char>, Seq<u8>)>, ct: Seq<u8>) -> Option<Seq<u8>>;

/// The SHA-256 digest of `b`.
pub uninterp spec fn sha256_of(b: Seq<u8>) -> Seq<u8>;

/// The standard, padded base64 text of `b`.
pub uninterp spec fn b64_std_of(b: Seq<u8>) -> Seq<char>;

/// The bytes that the standard, padded base64 text `s` stands for.
pub uninterp spec fn b64_std_decoded(s: Seq<char>) -> Option<Seq<u8>>;

/// The URL-safe, unpadded base64 text of `b`.
pub uninterp spec fn b64_url_of(b: Seq<u8>) -> Seq<char>;

/// The bytes that the URL-safe, unpadded base64 text `s` stands for.
pub uninterp spec fn b64_url_decoded(s: Seq<char>) -> Option<Seq<u8>>;

/// The text of `b`, with each invalid UTF-8 sequence replaced.
pub uninterp spec fn utf8_lossy_of(b: Seq<u8>) -> Seq<char>;

pub open spec fn bytes_view(o: Option<Vec<u8>>) -> Option<Seq<u8>> {
    match o {
        Some(v) => Some(v@),
        None => None,
    }
}

pub open spec fn is_ascii_letter(c: char) -> bool {
    ('a' <= c && c <= 'z') || ('A' <= c && c <= 'Z')
}

/// Relies on cryptr's `EncValue::encrypt_with_keys` and `EncValue::into_bytes`:
/// the ciphertext starts with a header of at least the fixed length, carries
/// the active key's id and decrypts to the plaintext. It fails only on an
/// unusable active key, or on a plaintext far beyond the bound stated here.
#[verifier::external_body]
pub(crate) fn encrypt_bytes(keys: &EncKeySet, plain: &[u8]) -> (r: Option<Vec<u8>>)
    ensures
        active_key_usable(keys.keys.deep_view(), keys.active@) && plain@.len() <= ENC_PLAIN_MAX ==> r is Some,
        r matches Some(ct) ==> ct@.len() >= ENC_HEADER_LEN && decryption_of(keys.keys.deep_view(), ct@) == Some(plain@),
{
    let enc_keys = cryptr::EncKeys { enc_key_active: keys.active.clone(), enc_keys: keys.keys.clone() };
    cryptr::EncValue::encrypt_with_keys(plain, &enc_keys).ok().map(|v| v.into_bytes().to_vec())
}

/// Relies on cryptr's `EncValue::try_from_bytes` and `EncValue::decrypt_with_keys`:
/// the header names the key and the result depends on the keys and bytes alone.
/// Reading the header's fixed part panics on shorter input, which is excluded.
#[verifier::external_body]
pub(crate) fn decrypt_bytes(keys: &EncKeySet, ct: &[u8]) -> (r: Option<Vec<u8>>)
    requires
        ct@.len() >= ENC_HEADER_LEN,
    ensures
        bytes_view(r) == decryption_of(keys.keys.deep_view(), ct@),
{
    let enc_keys = cryptr::EncKeys { enc_key_active: keys.active.clone(), enc_keys: keys.keys.clone() };
    let value = cryptr::EncValue::try_from_bytes(ct.to_vec()).ok()?;
    value.decrypt_with_keys(&enc_keys).ok().map(|b| b.to_vec())
}

/// Relies on ring's `digest::digest` with `SHA256`: a 32-byte digest.
#[verifier::external_body]
pub(crate) fn sha256(b: &[u8]) -> (r: Vec<u8>)
    ensures
        r@ == sha256_of(b@),
        r@.len() == 32,
{
    ring::digest::digest(&ring::digest::SHA256, b).as_ref().to_vec()
}

/// Relies on base64's `STANDARD.encode`, whose output `STANDARD.decode` reads back.
#[verifier::external_body]
pub(crate) fn b64_std_encode(b: &[u8]) -> (r: String)
    ensures
        r@ == b64_std_of(b@),
        b64_std_decoded(r@) == Some(b@),
{
    base64::engine::general_purpose::STANDARD.encode(b)
}

/// Relies on base64's `STANDARD.decode`.
#[verifier::external_body]
pub(crate) fn b64_std_decode(s: &str) -> (r: Option<Vec<u8>>)
    ensures
        bytes_view(r) == b64_std_decoded(s@),
{
    base64::engine::general_purpose::STANDARD.decode(s).ok()
}

/// Relies on base64's `URL_SAFE_NO_PAD.encode`.
#[verifier::external_body]
pub(crate) fn b64_url_encode(b: &[u8]) -> (r: String)
    ensures
        r@ == b64_url_of(b@),
{
    base64::engine::general_purpose::URL_SAFE_NO_PAD.encode(b)
}

/// Relies on base64's `URL_SAFE_NO_PAD.decode`.
#[verifier::external_body]
pub(crate) fn b64_url_decode(s: &str) -> (r: Option<Vec<u8>>)
    ensures
        bytes_view(r) == b64_url_decoded(s@),
{
    base64::engine::general_purpose::URL_SAFE_NO_PAD.decode(s).ok()
}

/// Relies on `String::from_utf8_lossy`: valid UTF-8 is read as it is.
#[verifier::external_body]
pub(crate) fn utf8_lossy(b: &[u8]) -> (r: String)
    ensures
        r@ == utf8_lossy_of(b@),
        valid_utf8(b@) ==> r@ == decode_utf8(b@),
{
    String::from_utf8_lossy(b).to_string()
}

/// Relies on cryptr's `utils::secure_random_alnum`: `count` random ASCII letters.
#[verifier::external_body]
pub(crate) fn random_alnum(count: usize) -> (r: String)
    ensures
        r@.len() == count,
        forall|i: int| 0 <= i < r@.len() ==> is_ascii_letter(#[trigger] r@[i]),
{
    cryptr::utils::secure_random_alnum(count)
}

} // verus!
