use minehelm::error::ApiError;
use minehelm::keys::{api_key_from_header, ApiKey, KeyTags, KeysService};

fn assert_valid_token(key: &ApiKey) {
    let s = key.as_str();
    assert_eq!(s.chars().count(), 128);
    assert!(s.chars().all(|c| c.is_ascii_alphanumeric()));
}

#[test]
fn issued_key_is_128_alphanumeric_characters() {
    let key = KeysService::create_new_key();
    assert_valid_token(&key);
}

#[test]
fn issued_keys_are_fresh_each_time() {
    // Uniqueness is probabilistic; at 62^128 possibilities two equal
    // draws would indicate a broken generator.
    let a = KeysService::create_new_key();
    let b = KeysService::create_new_key();
    assert_ne!(a.as_str(), b.as_str());
}

#[test]
fn present_header_yields_the_presented_token() {
    let key = api_key_from_header(Some("abc123".to_string())).unwrap();
    assert_eq!(key.as_str(), "abc123");
}

#[test]
fn absent_header_is_a_client_error() {
    let err = api_key_from_header(None).unwrap_err();
    assert_eq!(err.status_code(), 400);
    assert!(matches!(err, ApiError::Message(400, _)));
}

#[test]
fn admin_tag_is_bit_one() {
    assert_eq!(KeyTags::admin().bits(), 1);
    assert_eq!(KeyTags::empty().bits(), 0);
}

#[test]
fn tag_sets_combine_and_contain() {
    let admin = KeyTags::admin();
    let empty = KeyTags::empty();
    assert!(admin.contains(empty));
    assert!(admin.contains(admin));
    assert!(!empty.contains(admin));
    let other = KeyTags::from_bits(2);
    let both = admin.union(other);
    assert_eq!(both.bits(), 3);
    assert!(both.contains(admin));
    assert!(both.contains(other));
    assert!(!admin.contains(both));
}
