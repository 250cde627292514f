use youtube_bot::error::StorageError;
use youtube_bot::model::{ChannelIdentity, IngestedItem};
use youtube_bot::store::{IdentityStore, IngestionLedger};

fn identity(channel: &str, public_key: &str, private_key: &str) -> ChannelIdentity {
    ChannelIdentity {
        channel_key: channel.to_string(),
        display_name: format!("{} name", channel),
        avatar_url: String::new(),
        public_key: public_key.to_string(),
        private_key: private_key.to_string(),
        remote_channel_id: format!("UC-{}", channel),
    }
}

fn item(link: &str, title: &str) -> IngestedItem {
    IngestedItem {
        channel_key: "abc".to_string(),
        title: title.to_string(),
        link: link.to_string(),
        author: "Abc Channel".to_string(),
        published_flag: false,
    }
}

#[test]
fn identity_store_starts_empty() {
    let store = IdentityStore::new();
    assert_eq!(store.len(), 0);
    assert!(store.get("abc").is_none());
    assert!(!store.contains("abc"));
}

#[test]
fn identity_put_then_get_returns_the_record() {
    let mut store = IdentityStore::new();
    assert_eq!(store.put(identity("abc", "npub1x", "nsec1x")), Ok(()));
    let found = store.get("abc").expect("stored");
    assert_eq!(found.channel_key, "abc");
    assert_eq!(found.public_key, "npub1x");
    assert_eq!(found.private_key, "nsec1x");
    assert_eq!(found.remote_channel_id, "UC-abc");
    assert_eq!(store.len(), 1);
    assert!(store.get("abd").is_none());
}

#[test]
fn identity_put_twice_is_a_duplicate_and_keeps_the_first_keys() {
    let mut store = IdentityStore::new();
    assert_eq!(store.put(identity("abc", "npub1x", "nsec1x")), Ok(()));
    assert_eq!(store.put(identity("abc", "npub1y", "nsec1y")), Err(StorageError::Duplicate));
    let found = store.get("abc").expect("stored");
    assert_eq!(found.public_key, "npub1x");
    assert_eq!(found.private_key, "nsec1x");
    assert_eq!(store.len(), 1);
}

#[test]
fn avatar_is_backfilled_once_and_never_overwritten() {
    let mut store = IdentityStore::new();
    store.put(identity("abc", "npub1x", "nsec1x")).unwrap();
    assert!(store.add_avatar("abc", "http://x/a.png"));
    assert_eq!(store.get("abc").unwrap().avatar_url, "http://x/a.png");
    assert!(!store.add_avatar("abc", "http://x/b.png"));
    let found = store.get("abc").unwrap();
    assert_eq!(found.avatar_url, "http://x/a.png");
    assert_eq!(found.public_key, "npub1x");
    assert!(!store.add_avatar("nobody", "http://x/c.png"));
    assert!(store.get("nobody").is_none());
}

#[test]
fn ledger_insert_then_exists_then_duplicate() {
    let mut ledger = IngestionLedger::new();
    assert!(!ledger.video_exists("http://x/ep1"));
    assert_eq!(ledger.insert(item("http://x/ep1", "Ep1")), Ok(()));
    assert!(ledger.video_exists("http://x/ep1"));
    assert_eq!(ledger.insert(item("http://x/ep1", "Another title")), Err(StorageError::Duplicate));
    assert_eq!(ledger.len(), 1);
    assert_eq!(ledger.get("http://x/ep1").unwrap().title, "Ep1");
}

#[test]
fn ledger_record_builds_the_item_from_its_fields() {
    let mut ledger = IngestionLedger::new();
    assert_eq!(ledger.record("abc", "Abc Channel", "Ep1", "http://x/ep1", false), Ok(()));
    let found = ledger.get("http://x/ep1").expect("recorded");
    assert_eq!(found.channel_key, "abc");
    assert_eq!(found.author, "Abc Channel");
    assert_eq!(found.title, "Ep1");
    assert_eq!(found.link, "http://x/ep1");
    assert!(!found.published_flag);
    assert_eq!(
        ledger.record("other", "Someone", "Ep1 again", "http://x/ep1", true),
        Err(StorageError::Duplicate)
    );
    assert!(!ledger.video_exists("http://x/ep2"));
}

#[test]
fn links_are_unique_across_channels() {
    let mut ledger = IngestionLedger::new();
    ledger.record("abc", "A", "Ep1", "http://x/ep1", false).unwrap();
    ledger.record("abc", "A", "Ep2", "http://x/ep2", false).unwrap();
    assert_eq!(
        ledger.record("xyz", "B", "Ep1", "http://x/ep1", false),
        Err(StorageError::Duplicate)
    );
    assert_eq!(ledger.len(), 2);
}
