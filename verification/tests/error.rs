use youtube_bot::api::{RssError, YoutubeError};
use youtube_bot::error::{PublishError, RelayError, StorageError};
use youtube_bot::protocol::FetchError;
use youtube_bot::Error;

#[test]
fn error_messages_name_their_source() {
    assert_eq!(
        Error::DbError(StorageError::Unavailable).message(),
        "Database error: store unavailable"
    );
    assert_eq!(Error::DbError(StorageError::Duplicate).message(), "Database error: duplicate key");
    assert_eq!(Error::UpstreamFetch.message(), "Youtube error: upstream fetch failed");
    assert_eq!(Error::Nostr.message(), "Nostr error: invalid secret key");
    assert_eq!(
        Error::NostrWrapper(RelayError::Emit).message(),
        "NostrWrapper error: emit failed"
    );
    assert_eq!(
        Error::NostrWrapper(RelayError::Connect).message(),
        "NostrWrapper error: connect failed"
    );
    assert_eq!(
        Error::NostrWrapper(RelayError::Profile).message(),
        "NostrWrapper error: profile sync failed"
    );
    assert_eq!(
        Error::NostrWrapper(RelayError::Disconnect).message(),
        "NostrWrapper error: disconnect failed"
    );
    assert_eq!(Error::UnexpectedEvent.message(), "Custom error: unexpected event");
}

#[test]
fn storage_and_relay_errors_have_their_own_text() {
    assert_eq!(StorageError::Unavailable.message(), "store unavailable");
    assert_eq!(StorageError::Duplicate.message(), "duplicate key");
    assert_eq!(RelayError::Connect.message(), "connect failed");
    assert_eq!(RelayError::Emit.message(), "emit failed");
}

#[test]
fn a_failed_publish_is_an_emit_failure() {
    assert_eq!(PublishError::Emit.cause(), RelayError::Emit);
    assert_eq!(Error::from_publish(PublishError::Emit), Error::NostrWrapper(RelayError::Emit));
}

#[test]
fn fetcher_errors_have_their_text_and_their_kind() {
    assert_eq!(YoutubeError::ChannelIdNotFound.message(), "Custom error: Channel ID not found");
    assert_eq!(YoutubeError::UserInfoNotFound.message(), "Custom error: User info not found");
    assert_eq!(YoutubeError::AvatarUrlNotFound.message(), "Custom error: Avatar URL not found");
    assert_eq!(YoutubeError::UserNameNotFound.message(), "Custom error: User name not found");
    assert_eq!(YoutubeError::NoItemsFound.message(), "Custom error: No items found");
    assert_eq!(YoutubeError::Sonic.message(), "Sonic error: invalid document");
    assert_eq!(YoutubeError::Reqwest.message(), "Reqwest error: request failed");
    assert_eq!(RssError::Rss.message(), "Rss error: invalid feed");
    assert_eq!(RssError::Reqwest.message(), "Reqwest error: request failed");
    assert_eq!(YoutubeError::Reqwest.fetch_error(), FetchError::Unavailable);
    assert_eq!(YoutubeError::Sonic.fetch_error(), FetchError::Malformed);
    assert_eq!(YoutubeError::NoItemsFound.fetch_error(), FetchError::Malformed);
    assert_eq!(RssError::Reqwest.fetch_error(), FetchError::Unavailable);
    assert_eq!(RssError::Rss.fetch_error(), FetchError::Malformed);
}
