//! The outside primitives that the secret store is built on: SHA-256, AES-256-GCM,
//! base64, JSON and the sources of a nonce and of the home directory.
//!
//! Each function here makes one outside call and states what the outside crate
//! documents of it. Results that take pages to state are given a name.

use aes_gcm::aead::{Aead, KeyInit};
use aes_gcm::{Aes256Gcm, Key, Nonce};
use base64::engine::general_purpose::STANDARD;
use base64::Engine;
use rand::Rng;
use sha2::{Digest, Sha256};
use std::collections::BTreeMap;
use vstd::prelude::*;

verus! {

/// The longest plaintext, in bytes, that AES-256-GCM encrypts.
pub const GCM_PLAINTEXT_MAX: u64 = 68719476736;

/// The length, in bytes, of the authentication tag that AES-256-GCM appends.
pub const GCM_TAG_LEN: usize = 16;

/// The SHA-256 digest of a byte string.
pub uninterp spec fn sha256_of(data: Seq<u8>) -> Seq<u8>;

/// The AES-256-GCM ciphertext (tag included) of a plaintext under a key and nonce,
/// with no associated data.
pub uninterp spec fn gcm_sealed(key: Seq<u8>, nonce: Seq<u8>, plaintext: Seq<u8>) -> Seq<u8>;

/// What AES-256-GCM decryption of a ciphertext under a key and nonce yields:
/// `None` where authentication fails.
pub uninterp spec fn gcm_opened(key: Seq<u8>, nonce: Seq<u8>, ciphertext: Seq<u8>) -> Option<Seq<u8>>;

/// The standard, padded base64 text of a byte string.
pub uninterp spec fn base64_text_of(data: Seq<u8>) -> Seq<char>;

/// The bytes that standard, padded base64 decoding reads from a text, `None` where
/// the text is not valid base64.
pub uninterp spec fn base64_bytes_of(text: Seq<char>) -> Option<Seq<u8>>;

/// The pretty-printed JSON object that serde_json writes for a map of strings.
pub uninterp spec fn json_text_of(m: Map<Seq<char>, Seq<char>>) -> Seq<u8>;

/// The map of strings that serde_json reads from JSON bytes, `None` where they do not
/// hold a JSON object whose values are all strings.
pub uninterp spec fn json_map_of(data: Seq<u8>) -> Option<Map<Seq<char>, Seq<char>>>;

/// The map that a list of name/value pairs stands for.
pub open spec fn pairs_map(s: Seq<(String, String)>) -> Map<Seq<char>, Seq<char>> {
    Map::new(
        |k: Seq<char>| exists|i: int| 0 <= i < s.len() && s[i].0@ == k,
        |k: Seq<char>| s[choose|i: int| 0 <= i < s.len() && s[i].0@ == k].1@,
    )
}

/// No two pairs share a name.
pub open spec fn names_distinct(s: Seq<(String, String)>) -> bool {
    forall|i: int, j: int|
        0 <= i < s.len() && 0 <= j < s.len() && i != j ==> s[i].0@ != s[j].0@
}

#[verifier::external_type_specification]
#[verifier::external_body]
pub struct ExAeadError(aes_gcm::Error);

#[verifier::external_type_specification]
#[verifier::external_body]
pub struct ExDecodeError(base64::DecodeError);

#[verifier::external_type_specification]
#[verifier::external_body]
pub struct ExJsonError(serde_json::Error);

/// Relies on sha2's `Sha256::digest`: the 32-byte SHA-256 digest of `data`.
#[verifier::external_body]
pub(crate) fn sha256(data: &[u8]) -> (r: [u8; 32])
    ensures
        r@ == sha256_of(data@),
{
    Sha256::digest(data).into()
}

/// Relies on `Aead::encrypt` of aes-gcm's `Aes256Gcm`: it fails only on a plaintext
/// longer than `P_MAX` (2^36 bytes), appends a 16-byte tag, and what it writes
/// decrypts under the same key and nonce to the plaintext.
#[verifier::external_body]
pub(crate) fn gcm_encrypt(key: &[u8; 32], nonce: &[u8; 12], plaintext: &[u8]) -> (r: Result<Vec<u8>, aes_gcm::Error>)
    ensures
        r is Ok <==> plaintext@.len() <= GCM_PLAINTEXT_MAX,
        r matches Ok(c) ==> {
            &&& c@ == gcm_sealed(key@, nonce@, plaintext@)
            &&& c@.len() == plaintext@.len() + GCM_TAG_LEN
            &&& gcm_opened(key@, nonce@, c@) == Some(plaintext@)
        },
{
    let cipher = Aes256Gcm::new(Key::<Aes256Gcm>::from_slice(key));
    cipher.encrypt(Nonce::from_slice(nonce), plaintext)
}

/// Relies on `Aead::decrypt` of aes-gcm's `Aes256Gcm`: the plaintext where the
/// ciphertext authenticates under the key and nonce, an error where it does not.
#[verifier::external_body]
pub(crate) fn gcm_decrypt(key: &[u8; 32], nonce: &[u8], ciphertext: &[u8]) -> (r: Result<Vec<u8>, aes_gcm::Error>)
    requires
        nonce@.len() == 12,
    ensures
        match r {
            Ok(p) => gcm_opened(key@, nonce@, ciphertext@) == Some(p@),
            Err(_) => gcm_opened(key@, nonce@, ciphertext@) is None,
        },
{
    let cipher = Aes256Gcm::new(Key::<Aes256Gcm>::from_slice(key));
    cipher.decrypt(Nonce::from_slice(nonce), ciphertext)
}

/// Relies on `Engine::encode` of base64's `STANDARD` engine: the padded base64 text
/// of `data`, which `Engine::decode` reads back to `data`. It panics only where the
/// length of the text overflows `usize`.
#[verifier::external_body]
pub(crate) fn base64_encode(data: &[u8]) -> (r: String)
    requires
        data@.len() <= usize::MAX / 2,
    ensures
        r@ == base64_text_of(data@),
        base64_bytes_of(r@) == Some(data@),
{
    STANDARD.encode(data)
}

/// Relies on `Engine::decode` of base64's `STANDARD` engine.
#[verifier::external_body]
pub(crate) fn base64_decode(text: &str) -> (r: Result<Vec<u8>, base64::DecodeError>)
    ensures
        match r {
            Ok(b) => base64_bytes_of(text@) == Some(b@),
            Err(_) => base64_bytes_of(text@) is None,
        },
{
    STANDARD.decode(text)
}

/// Relies on `serde_json::to_vec_pretty`: a map whose keys are strings always
/// serialises, and serde_json reads the text back to the same map.
#[verifier::external_body]
pub(crate) fn json_encode(pairs: &Vec<(String, String)>) -> (r: Result<Vec<u8>, serde_json::Error>)
    requires
        names_distinct(pairs@),
    ensures
        r is Ok,
        r matches Ok(b) ==> {
            &&& b@ == json_text_of(pairs_map(pairs@))
            &&& json_map_of(b@) == Some(pairs_map(pairs@))
        },
{
    let m: BTreeMap<&String, &String> = pairs.iter().map(|p| (&p.0, &p.1)).collect();
    serde_json::to_vec_pretty(&m)
}

/// Relies on `serde_json::from_slice` into a map of strings, handed out as pairs with
/// distinct names.
#[verifier::external_body]
pub(crate) fn json_decode(data: &[u8]) -> (r: Result<Vec<(String, String)>, serde_json::Error>)
    ensures
        match r {
            Ok(pairs) => names_distinct(pairs@) && json_map_of(data@) == Some(pairs_map(pairs@)),
            Err(_) => json_map_of(data@) is None,
        },
{
    serde_json::from_slice::<BTreeMap<String, String>>(data).map(|m| m.into_iter().collect())
}

/// Relies on rand's `thread_rng`: twelve random bytes, of which nothing is promised.
#[verifier::external_body]
pub(crate) fn fresh_nonce() -> (r: [u8; 12]) {
    let mut nonce = [0u8; 12];
    rand::thread_rng().fill(&mut nonce);
    nonce
}

/// Relies on `dirs::home_dir`: the current user's home directory as text, where one
/// is known. It depends on the environment, so nothing is promised of it.
#[verifier::external_body]
pub(crate) fn home_dir_text() -> (r: Option<String>) {
    dirs::home_dir().map(|p| p.to_string_lossy().to_string())
}

}
