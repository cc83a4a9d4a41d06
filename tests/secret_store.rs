use companion_core::document::SecretDocument;
use companion_core::secrets::{
    api_key_status, decrypt, delete_api_key, encrypt, encryption_key_for, get_stored_key_names,
    has_api_key, read_secrets, retrieve_api_key, seal_secrets, store_api_key,
};

fn key() -> [u8; 32] {
    encryption_key_for("/home/alice")
}

fn flip_char(text: &str, at: usize) -> String {
    let mut chars: Vec<char> = text.chars().collect();
    chars[at] = if chars[at] == 'A' { 'B' } else { 'A' };
    chars.into_iter().collect()
}

#[test]
fn key_is_sha256_of_home_and_salt() {
    let expected: [u8; 32] = [
        136, 245, 179, 236, 250, 26, 62, 196, 38, 198, 206, 32, 179, 169, 206, 100, 54, 142, 139,
        17, 1, 26, 93, 116, 32, 129, 249, 73, 41, 10, 121, 186,
    ];
    assert_eq!(encryption_key_for("/home/alice"), expected);
    assert_eq!(&encryption_key_for("default_user")[..4], &[128, 77, 62, 4]);
    assert_ne!(encryption_key_for("/home/alice"), encryption_key_for("/home/bob"));
}

#[test]
fn store_then_retrieve_round_trip() {
    let k = key();
    let written = store_api_key(&k, None, "google_api_key", "g-123").unwrap();
    // A second reader, as after a restart, with the same key and the same file text.
    let k2 = encryption_key_for("/home/alice");
    let got = retrieve_api_key(&k2, Some(written.as_str()), "google_api_key").unwrap();
    assert_eq!(got, Some("g-123".to_string()));
}

#[test]
fn store_overwrites_existing_value() {
    let k = key();
    let first = store_api_key(&k, None, "fal_api_key", "old").unwrap();
    let second = store_api_key(&k, Some(first.as_str()), "fal_api_key", "new").unwrap();
    assert_eq!(
        retrieve_api_key(&k, Some(second.as_str()), "fal_api_key").unwrap(),
        Some("new".to_string())
    );
}

#[test]
fn envelope_is_not_clear_text() {
    let k = key();
    let written = store_api_key(&k, None, "google_api_key", "plain-secret-value").unwrap();
    assert!(!written.contains("plain-secret-value"));
    assert!(!written.contains("google_api_key"));
}

#[test]
fn fresh_nonce_per_write() {
    let k = key();
    let a = store_api_key(&k, None, "google_api_key", "v").unwrap();
    let b = store_api_key(&k, None, "google_api_key", "v").unwrap();
    assert_ne!(a, b);
}

#[test]
fn delete_twice_succeeds_and_leaves_absent() {
    let k = key();
    let stored = store_api_key(&k, None, "tavily_api_key", "t-1").unwrap();
    let once = delete_api_key(&k, Some(stored.as_str()), "tavily_api_key").unwrap();
    let twice = delete_api_key(&k, Some(once.as_str()), "tavily_api_key").unwrap();
    assert_eq!(retrieve_api_key(&k, Some(once.as_str()), "tavily_api_key").unwrap(), None);
    assert_eq!(retrieve_api_key(&k, Some(twice.as_str()), "tavily_api_key").unwrap(), None);
}

#[test]
fn delete_of_absent_name_is_no_error() {
    let k = key();
    let written = delete_api_key(&k, None, "google_api_key").unwrap();
    assert_eq!(retrieve_api_key(&k, Some(written.as_str()), "google_api_key").unwrap(), None);
}

#[test]
fn storing_one_name_keeps_another() {
    let k = key();
    let a = store_api_key(&k, None, "google_api_key", "g").unwrap();
    let b = store_api_key(&k, Some(a.as_str()), "fal_api_key", "f").unwrap();
    assert_eq!(retrieve_api_key(&k, Some(b.as_str()), "google_api_key").unwrap(), Some("g".to_string()));
    assert_eq!(retrieve_api_key(&k, Some(b.as_str()), "fal_api_key").unwrap(), Some("f".to_string()));
    let c = delete_api_key(&k, Some(b.as_str()), "fal_api_key").unwrap();
    assert_eq!(retrieve_api_key(&k, Some(c.as_str()), "google_api_key").unwrap(), Some("g".to_string()));
}

#[test]
fn corrupted_envelope_reads_as_absent() {
    let k = key();
    let written = store_api_key(&k, None, "google_api_key", "g-123").unwrap();
    for at in [0usize, 5, 20, written.len() - 8] {
        let broken = flip_char(&written, at);
        assert_ne!(broken, written);
        assert_eq!(retrieve_api_key(&k, Some(broken.as_str()), "google_api_key"), Ok(None));
        assert!(!has_api_key(&k, Some(broken.as_str()), "google_api_key"));
    }
}

#[test]
fn other_key_reads_as_absent() {
    let written = store_api_key(&key(), None, "google_api_key", "g-123").unwrap();
    let other = encryption_key_for("/home/bob");
    assert_eq!(retrieve_api_key(&other, Some(written.as_str()), "google_api_key"), Ok(None));
}

#[test]
fn malformed_envelope_reads_as_empty_and_is_overwritten() {
    let k = key();
    assert_eq!(retrieve_api_key(&k, Some("not base64 at all!"), "google_api_key"), Ok(None));
    // Valid base64, but shorter than a nonce.
    assert_eq!(retrieve_api_key(&k, Some("AAAA"), "google_api_key"), Ok(None));
    assert!(decrypt(&k, "AAAA").is_err());
    let written = store_api_key(&k, Some("AAAA"), "fal_api_key", "f").unwrap();
    assert_eq!(retrieve_api_key(&k, Some(written.as_str()), "fal_api_key").unwrap(), Some("f".to_string()));
}

#[test]
fn fresh_vault_scenario() {
    let k = key();
    assert_eq!(retrieve_api_key(&k, None, "google_api_key"), Ok(None));
    assert_eq!(get_stored_key_names(), vec!["google_api_key", "tavily_api_key", "fal_api_key"]);
    assert!(!has_api_key(&k, None, "google_api_key"));
}

#[test]
fn status_lists_known_names_in_order() {
    let k = key();
    let written = store_api_key(&k, None, "tavily_api_key", "t").unwrap();
    let status = api_key_status(&k, Some(written.as_str()));
    let names: Vec<&str> = status.iter().map(|s| s.name.as_str()).collect();
    assert_eq!(names, vec!["google_api_key", "tavily_api_key", "fal_api_key"]);
    let configured: Vec<bool> = status.iter().map(|s| s.configured).collect();
    assert_eq!(configured, vec![false, true, false]);
}

#[test]
fn encrypt_then_decrypt() {
    let k = key();
    let nonce = [7u8; 12];
    let text = encrypt(&k, &nonce, b"hello").unwrap();
    assert!(text.starts_with("BwcHBwcHBwcHBwcH"));
    assert_ne!(text, "hello");
    assert_eq!(decrypt(&k, &text).unwrap(), b"hello".to_vec());
}

#[test]
fn seal_with_fixed_nonce_is_deterministic() {
    let k = key();
    let nonce = [7u8; 12];
    let mut doc = SecretDocument::empty();
    doc.insert("google_api_key", "g");
    let a = seal_secrets(&k, &nonce, &doc).unwrap();
    let b = seal_secrets(&k, &nonce, &doc).unwrap();
    assert_eq!(a, b);
    assert!(a.starts_with("BwcHBwcHBwcHBwcH"));
    let back = read_secrets(&k, Some(a.as_str()));
    assert_eq!(back.get("google_api_key"), Some("g".to_string()));
    assert_eq!(back.pairs().len(), 1);
}

#[test]
fn document_insert_get_remove() {
    let mut doc = SecretDocument::empty();
    assert!(!doc.contains("a"));
    doc.insert("a", "1");
    doc.insert("b", "2");
    doc.insert("a", "3");
    assert_eq!(doc.pairs().len(), 2);
    assert_eq!(doc.get("a"), Some("3".to_string()));
    doc.remove("a");
    assert_eq!(doc.get("a"), None);
    assert_eq!(doc.get("b"), Some("2".to_string()));
    doc.remove("zzz");
    assert_eq!(doc.pairs().len(), 1);
}

#[test]
fn values_with_json_special_characters_survive() {
    let k = key();
    let value = "quote\" backslash\\ newline\n unicode é";
    let written = store_api_key(&k, None, "google_api_key", value).unwrap();
    assert_eq!(retrieve_api_key(&k, Some(written.as_str()), "google_api_key").unwrap(), Some(value.to_string()));
}
