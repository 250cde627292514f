use nostr_sdk::prelude::ToBech32;
use youtube_bot::error::Error;
use youtube_bot::keys::{convert_key, is_valid_key, new_key};

#[test]
fn new_key_gives_both_halves_in_text_encoding() {
    let key = new_key().expect("key generation does not fail");
    assert!(key.public_key.starts_with("npub1"));
    assert!(key.secret_key.starts_with("nsec1"));
    assert_eq!(key.public_key.len(), 63);
    assert_eq!(key.secret_key.len(), 63);
}

#[test]
fn new_key_gives_a_fresh_pair_each_time() {
    let a = new_key().unwrap();
    let b = new_key().unwrap();
    assert_ne!(a.secret_key, b.secret_key);
    assert_ne!(a.public_key, b.public_key);
}

#[test]
fn convert_key_reads_a_minted_secret_back() {
    let key = new_key().unwrap();
    let keys = convert_key(&key.secret_key).expect("a minted secret key parses");
    assert_eq!(keys.public_key().to_bech32().unwrap(), key.public_key);
    assert_eq!(keys.secret_key().to_bech32().unwrap(), key.secret_key);
    assert!(is_valid_key(&key.secret_key));
}

#[test]
fn convert_key_reads_hex() {
    let hex = "6b911fd37cdf5c81d4c0adb1ab7fa822ed253ab0ad9aa18d77257c88b29b718e";
    let keys = convert_key(hex).expect("hex secret key parses");
    assert_eq!(keys.secret_key().to_secret_hex(), hex);
    assert!(is_valid_key(hex));
}

#[test]
fn convert_key_rejects_what_is_no_key() {
    assert!(matches!(convert_key("not a key"), Err(Error::Nostr)));
    assert!(matches!(convert_key(""), Err(Error::Nostr)));
    assert!(!is_valid_key("nsec1"));
    let public = new_key().unwrap().public_key;
    assert!(!is_valid_key(&public));
}
