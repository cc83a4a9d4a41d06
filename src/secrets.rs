//! The encrypted secret store.
//!
//! The store is one envelope: the base64 text of a 12-byte nonce followed by the
//! AES-256-GCM ciphertext of a JSON object that maps credential names to values.
//! Every operation reads the whole envelope and, where it changes something, hands
//! back a whole new one sealed under a fresh nonce; the caller writes it in place of
//! the old. An envelope that is missing or cannot be opened reads as no secrets.

use crate::document::{lookup, SecretDocument};
use crate::primitives::{
    base64_bytes_of, base64_decode, base64_encode, base64_text_of, fresh_nonce, gcm_decrypt,
    gcm_encrypt, gcm_opened, gcm_sealed, home_dir_text, json_decode, json_encode, json_map_of,
    json_text_of, sha256, sha256_of, GCM_PLAINTEXT_MAX, GCM_TAG_LEN,
};
use vstd::prelude::*;
use vstd::slice::slice_to_vec;
use vstd::utf8::encode_utf8;

verus! {

/// The length in bytes of the nonce at the start of an envelope.
pub const NONCE_SIZE: usize = 12;

/// The salt hashed after the home directory to derive the key.
pub const APP_SALT: &'static str = "revelio_secrets_v2_stable";

/// The stand-in for the home directory where none is known.
pub const DEFAULT_USER: &'static str = "default_user";

/// The key derived for a home directory: SHA-256 of its UTF-8 bytes followed by the salt.
pub open spec fn key_for_home(home: Seq<char>) -> Seq<u8> {
    sha256_of(encode_utf8(home) + encode_utf8(APP_SALT@))
}

/// The plaintext that an envelope holds under `key`, `None` where the text is not
/// base64, is shorter than a nonce, or does not authenticate.
pub open spec fn envelope_plaintext(key: Seq<u8>, text: Seq<char>) -> Option<Seq<u8>> {
    match base64_bytes_of(text) {
        Some(b) => if b.len() < NONCE_SIZE {
            None
        } else {
            gcm_opened(key, b.take(NONCE_SIZE as int), b.skip(NONCE_SIZE as int))
        },
        None => None,
    }
}

/// The envelope that seals `plaintext` under `key` and `nonce`.
pub open spec fn sealed_text(key: Seq<u8>, nonce: Seq<u8>, plaintext: Seq<u8>) -> Seq<char> {
    base64_text_of(nonce + gcm_sealed(key, nonce, plaintext))
}

/// The secrets that the stored envelope, if there is one, holds under `key`: none where
/// there is no envelope, it cannot be opened, or it does not hold a JSON object of strings.
pub open spec fn secrets_in(key: Seq<u8>, stored: Option<Seq<char>>) -> Map<Seq<char>, Seq<char>> {
    match stored {
        Some(text) => match envelope_plaintext(key, text) {
            Some(p) => match json_map_of(p) {
                Some(m) => m,
                None => Map::empty(),
            },
            None => Map::empty(),
        },
        None => Map::empty(),
    }
}

/// The view of an optional text.
pub open spec fn text_view(o: Option<&str>) -> Option<Seq<char>> {
    match o {
        Some(t) => Some(t@),
        None => None,
    }
}

/// What a successful write leaves: an envelope under a 12-byte nonce whose secrets are `m`.
pub open spec fn writes_secrets(key: Seq<u8>, envelope: Seq<char>, m: Map<Seq<char>, Seq<char>>) -> bool {
    &&& secrets_in(key, Some(envelope)) == m
    &&& exists|nonce: Seq<u8>| nonce.len() == NONCE_SIZE
        && envelope == #[trigger] sealed_text(key, nonce, json_text_of(m))
}

/// Whether a plaintext of `n` bytes can be sealed: the cipher takes at most
/// `GCM_PLAINTEXT_MAX` bytes, and the envelope's base64 text must have a length that
/// fits in `usize`.
pub open spec fn sealable_len(n: nat) -> bool {
    n <= GCM_PLAINTEXT_MAX && n + NONCE_SIZE + GCM_TAG_LEN <= usize::MAX / 2
}

/// A write of `m` fails only where its JSON text is too long to seal.
pub open spec fn write_fits(m: Map<Seq<char>, Seq<char>>) -> bool {
    sealable_len(json_text_of(m).len())
}

fn concat_bytes(a: &[u8], b: &[u8]) -> (r: Vec<u8>)
    ensures
        r@ == a@ + b@,
{
    let mut r = slice_to_vec(a);
    let mut i: usize = 0;
    while i < b.len()
        invariant
            i <= b@.len(),
            r@ == a@ + b@.take(i as int),
        decreases b@.len() - i,
    {
        r.push(b[i]);
        i = i + 1;
        assert(b@.take(i as int) == b@.take(i - 1 as int).push(b@[i - 1]));
    }
    assert(b@.take(b@.len() as int) == b@);
    r
}

fn split_bytes(b: &Vec<u8>, at: usize) -> (r: (Vec<u8>, Vec<u8>))
    requires
        at <= b@.len(),
    ensures
        r.0@ == b@.take(at as int),
        r.1@ == b@.skip(at as int),
{
    let mut head: Vec<u8> = Vec::new();
    let mut tail: Vec<u8> = Vec::new();
    let mut i: usize = 0;
    while i < b.len()
        invariant
            at <= b@.len(),
            i <= b@.len(),
            i <= at ==> head@ == b@.take(i as int) && tail@.len() == 0,
            i > at ==> head@ == b@.take(at as int) && tail@ == b@.subrange(at as int, i as int),
        decreases b@.len() - i,
    {
        if i < at {
            head.push(b[i]);
            assert(b@.take(i + 1 as int) == b@.take(i as int).push(b@[i as int]));
        } else {
            tail.push(b[i]);
            assert(b@.subrange(at as int, i + 1 as int) == b@.subrange(at as int, i as int).push(b@[i as int]));
        }
        i = i + 1;
    }
    assert(b@.subrange(at as int, b@.len() as int) == b@.skip(at as int));
    (head, tail)
}

/// Derives the store's key from a home directory path.
pub fn encryption_key_for(home: &str) -> (r: [u8; 32])
    ensures
        r@ == key_for_home(home@),
{
    let input = concat_bytes(home.as_bytes(), APP_SALT.as_bytes());
    sha256(input.as_slice())
}

/// Derives the store's key from the current user's home directory, or from a fixed
/// stand-in where none is known.
pub fn get_encryption_key() -> (r: [u8; 32])
    ensures
        exists|home: Seq<char>| r@ == key_for_home(home),
{
    match home_dir_text() {
        Some(home) => encryption_key_for(home.as_str()),
        None => encryption_key_for(DEFAULT_USER),
    }
}

/// Seals `plaintext` under `key` and `nonce` into envelope text.
pub fn encrypt(key: &[u8; 32], nonce: &[u8; 12], plaintext: &[u8]) -> (r: Result<String, String>)
    ensures
        r is Ok <==> sealable_len(plaintext@.len()),
        r matches Ok(text) ==> {
            &&& text@ == sealed_text(key@, nonce@, plaintext@)
            &&& envelope_plaintext(key@, text@) == Some(plaintext@)
        },
{
    if plaintext.len() > usize::MAX / 2 - NONCE_SIZE - GCM_TAG_LEN {
        return Err("Encryption failed".to_owned());
    }
    match gcm_encrypt(key, nonce, plaintext) {
        Ok(ciphertext) => {
            let combined = concat_bytes(nonce, ciphertext.as_slice());
            let text = base64_encode(combined.as_slice());
            proof {
                assert(combined@.take(NONCE_SIZE as int) == nonce@);
                assert(combined@.skip(NONCE_SIZE as int) == ciphertext@);
            }
            Ok(text)
        },
        Err(_) => Err("Encryption failed".to_owned()),
    }
}

/// Opens envelope text under `key`, giving the plaintext it seals.
pub fn decrypt(key: &[u8; 32], encrypted: &str) -> (r: Result<Vec<u8>, String>)
    ensures
        match r {
            Ok(p) => envelope_plaintext(key@, encrypted@) == Some(p@),
            Err(_) => envelope_plaintext(key@, encrypted@) is None,
        },
{
    let combined = match base64_decode(encrypted) {
        Ok(b) => b,
        Err(_) => {
            return Err("Invalid encrypted data".to_owned());
        },
    };
    if combined.len() < NONCE_SIZE {
        return Err("Invalid encrypted data".to_owned());
    }
    let (nonce, ciphertext) = split_bytes(&combined, NONCE_SIZE);
    match gcm_decrypt(key, nonce.as_slice(), ciphertext.as_slice()) {
        Ok(p) => Ok(p),
        Err(_) => Err("Decryption failed - keys may need to be re-entered".to_owned()),
    }
}

/// Reads the secrets that the stored envelope holds under `key`. A missing envelope,
/// or one that cannot be opened or parsed, reads as no secrets.
pub fn read_secrets(key: &[u8; 32], stored: Option<&str>) -> (r: SecretDocument)
    ensures
        r.wf(),
        r@ == secrets_in(key@, text_view(stored)),
{
    let text = match stored {
        Some(t) => t,
        None => {
            return SecretDocument::empty();
        },
    };
    match decrypt(key, text) {
        Ok(plaintext) => match json_decode(plaintext.as_slice()) {
            Ok(pairs) => SecretDocument::from_pairs(pairs),
            Err(_) => SecretDocument::empty(),
        },
        Err(_) => SecretDocument::empty(),
    }
}

/// Seals a document under `key` and `nonce` into a new envelope.
pub fn seal_secrets(key: &[u8; 32], nonce: &[u8; 12], doc: &SecretDocument) -> (r: Result<String, String>)
    requires
        doc.wf(),
    ensures
        r is Ok <==> write_fits(doc@),
        r matches Ok(text) ==> {
            &&& text@ == sealed_text(key@, nonce@, json_text_of(doc@))
            &&& secrets_in(key@, Some(text@)) == doc@
        },
{
    let json = match json_encode(doc.pairs()) {
        Ok(b) => b,
        Err(_) => {
            return Err("Could not serialise secrets".to_owned());
        },
    };
    encrypt(key, nonce, json.as_slice())
}

fn write_secrets(key: &[u8; 32], doc: &SecretDocument) -> (r: Result<String, String>)
    requires
        doc.wf(),
    ensures
        r is Ok <==> write_fits(doc@),
        r matches Ok(text) ==> writes_secrets(key@, text@, doc@),
{
    let nonce = fresh_nonce();
    let r = seal_secrets(key, &nonce, doc);
    proof {
        if r is Ok {
            assert(nonce@.len() == NONCE_SIZE);
        }
    }
    r
}

/// Stores `key_value` under `key_name`, giving the envelope to write in place of `stored`.
pub fn store_api_key(key: &[u8; 32], stored: Option<&str>, key_name: &str, key_value: &str) -> (r: Result<String, String>)
    ensures
        r is Ok <==> write_fits(secrets_in(key@, text_view(stored)).insert(key_name@, key_value@)),
        r matches Ok(text) ==> writes_secrets(
            key@,
            text@,
            secrets_in(key@, text_view(stored)).insert(key_name@, key_value@),
        ),
{
    let mut doc = read_secrets(key, stored);
    doc.insert(key_name, key_value);
    write_secrets(key, &doc)
}

/// The value stored under `key_name`; `None` where it is absent or the envelope cannot
/// be read.
pub fn retrieve_api_key(key: &[u8; 32], stored: Option<&str>, key_name: &str) -> (r: Result<Option<String>, String>)
    ensures
        r matches Ok(v) && match v {
            Some(s) => lookup(secrets_in(key@, text_view(stored)), key_name@) == Some(s@),
            None => lookup(secrets_in(key@, text_view(stored)), key_name@) is None,
        },
{
    let doc = read_secrets(key, stored);
    Ok(doc.get(key_name))
}

/// Removes `key_name`, giving the envelope to write in place of `stored`; a name that
/// is not stored is no error.
pub fn delete_api_key(key: &[u8; 32], stored: Option<&str>, key_name: &str) -> (r: Result<String, String>)
    ensures
        r is Ok <==> write_fits(secrets_in(key@, text_view(stored)).remove(key_name@)),
        r matches Ok(text) ==> writes_secrets(
            key@,
            text@,
            secrets_in(key@, text_view(stored)).remove(key_name@),
        ),
{
    let mut doc = read_secrets(key, stored);
    doc.remove(key_name);
    write_secrets(key, &doc)
}

/// Whether a value is stored under `key_name`.
pub fn has_api_key(key: &[u8; 32], stored: Option<&str>, key_name: &str) -> (r: bool)
    ensures
        r == secrets_in(key@, text_view(stored)).contains_key(key_name@),
{
    match retrieve_api_key(key, stored, key_name) {
        Ok(v) => v.is_some(),
        Err(_) => false,
    }
}

/// The credential names that the command layer reports on, in order.
pub open spec fn known_names() -> Seq<Seq<char>> {
    seq!["google_api_key"@, "tavily_api_key"@, "fal_api_key"@]
}

/// Whether one credential is configured.
pub struct ApiKeyStatus {
    pub name: String,
    pub configured: bool,
}

/// The fixed names of the credentials that the worker is given, whatever is stored.
pub fn get_stored_key_names() -> (r: Vec<&'static str>)
    ensures
        r@.len() == known_names().len(),
        forall|i: int| 0 <= i < r@.len() ==> #[trigger] r@[i]@ == known_names()[i],
{
    vec!["google_api_key", "tavily_api_key", "fal_api_key"]
}

/// For each known name in order, whether a value is stored under it.
pub fn api_key_status(key: &[u8; 32], stored: Option<&str>) -> (r: Vec<ApiKeyStatus>)
    ensures
        r@.len() == known_names().len(),
        forall|i: int| 0 <= i < r@.len() ==> {
            &&& (#[trigger] r@[i]).name@ == known_names()[i]
            &&& r@[i].configured == secrets_in(key@, text_view(stored)).contains_key(known_names()[i])
        },
{
    let names = get_stored_key_names();
    let mut r: Vec<ApiKeyStatus> = Vec::new();
    let mut i: usize = 0;
    while i < names.len()
        invariant
            i <= names@.len(),
            names@.len() == known_names().len(),
            forall|j: int| 0 <= j < names@.len() ==> #[trigger] names@[j]@ == known_names()[j],
            r@.len() == i,
            forall|j: int| 0 <= j < i ==> {
                &&& (#[trigger] r@[j]).name@ == known_names()[j]
                &&& r@[j].configured == secrets_in(key@, text_view(stored)).contains_key(known_names()[j])
            },
        decreases names@.len() - i,
    {
        let name = names[i];
        let configured = has_api_key(key, stored, name);
        r.push(ApiKeyStatus { name: name.to_owned(), configured });
        i = i + 1;
    }
    r
}

/// A value that is stored is read back from the envelope that the store wrote, by
/// any later reader that holds the same key.
pub proof fn lemma_store_then_retrieve(
    key: Seq<u8>,
    stored: Option<Seq<char>>,
    name: Seq<char>,
    value: Seq<char>,
    written: Seq<char>,
)
    requires
        writes_secrets(key, written, secrets_in(key, stored).insert(name, value)),
    ensures
        lookup(secrets_in(key, Some(written)), name) == Some(value),
{
}

/// Deleting a name twice: where the first delete succeeds the second does too, it
/// changes nothing, and the name reads as absent afterwards.
pub proof fn lemma_delete_twice(
    key: Seq<u8>,
    stored: Option<Seq<char>>,
    name: Seq<char>,
    first: Seq<char>,
    second: Seq<char>,
)
    requires
        write_fits(secrets_in(key, stored).remove(name)),
        writes_secrets(key, first, secrets_in(key, stored).remove(name)),
        writes_secrets(key, second, secrets_in(key, Some(first)).remove(name)),
    ensures
        write_fits(secrets_in(key, Some(first)).remove(name)),
        secrets_in(key, Some(second)) == secrets_in(key, Some(first)),
        lookup(secrets_in(key, Some(second)), name) is None,
{
    let m = secrets_in(key, stored).remove(name);
    assert(m.remove(name) =~= m);
}

/// Storing one name leaves the value of every other name as it was.
pub proof fn lemma_store_keeps_others(
    key: Seq<u8>,
    stored: Option<Seq<char>>,
    name: Seq<char>,
    value: Seq<char>,
    written: Seq<char>,
    other: Seq<char>,
)
    requires
        writes_secrets(key, written, secrets_in(key, stored).insert(name, value)),
        other != name,
    ensures
        lookup(secrets_in(key, Some(written)), other) == lookup(secrets_in(key, stored), other),
{
}

/// An envelope that does not open under the key reads as holding no secrets at all.
pub proof fn lemma_unopenable_reads_nothing(key: Seq<u8>, text: Seq<char>, name: Seq<char>)
    requires
        envelope_plaintext(key, text) is None,
    ensures
        secrets_in(key, Some(text)) == Map::<Seq<char>, Seq<char>>::empty(),
        lookup(secrets_in(key, Some(text)), name) is None,
{
}

}
