use std::time::{SystemTime, UNIX_EPOCH};
use youtube_bot::custom_created_at;
use youtube_bot::error::RelayError;
use youtube_bot::nostr::{created_at_from, draft_note, jittered_timestamp};
use youtube_bot::NotePublisher;

fn now() -> u64 {
    SystemTime::now().duration_since(UNIX_EPOCH).unwrap().as_secs()
}

#[test]
fn jitter_moves_the_time_back_by_whole_minutes() {
    assert_eq!(jittered_timestamp(1_700_000_000, 0), 1_700_000_000);
    assert_eq!(jittered_timestamp(1_700_000_000, 1), 1_699_999_940);
    assert_eq!(jittered_timestamp(1_700_000_000, 59), 1_699_996_460);
    assert_eq!(jittered_timestamp(3600, 59), 60);
    assert_eq!(jittered_timestamp(3540, 59), 0);
}

#[test]
fn jitter_before_the_epoch_wraps_as_an_unsigned_cast_does() {
    assert_eq!(jittered_timestamp(0, 1), (-60i64) as u64);
    assert_eq!(jittered_timestamp(59, 1), u64::MAX);
}

#[test]
fn created_at_from_a_given_time_is_that_time_less_whole_minutes() {
    let now: i64 = 1_700_000_000;
    let mut seen = Vec::new();
    for _ in 0..400 {
        let t = created_at_from(now);
        assert!(t <= now as u64);
        assert!(t > now as u64 - 3600);
        assert_eq!((now as u64 - t) % 60, 0);
        if !seen.contains(&t) {
            seen.push(t);
        }
    }
    assert!(seen.len() > 1, "the offset never varied");
    assert!(seen.len() <= 60);
}

#[test]
fn created_at_lies_within_the_last_hour() {
    for _ in 0..200 {
        let before = now();
        let t = custom_created_at();
        let after = now();
        assert!(t <= after, "{} is in the future of {}", t, after);
        assert!(t + 3600 > before, "{} is more than an hour before {}", t, before);
    }
}

#[test]
fn created_at_is_jittered_by_whole_minutes() {
    let mut seen_offsets = Vec::new();
    for _ in 0..400 {
        let before = now();
        let t = custom_created_at();
        let after = now();
        let matches_minute =
            (before..=after).any(|n| n >= t && (n - t) % 60 == 0 && (n - t) / 60 < 60);
        assert!(matches_minute);
        let offset = (after - t) / 60;
        if !seen_offsets.contains(&offset) {
            seen_offsets.push(offset);
        }
    }
    assert!(seen_offsets.len() > 1, "the offset never varied");
}

#[test]
fn profile_has_the_name_the_avatar_and_the_fixed_fields() {
    let profile = NotePublisher::set_metadata("Abc Channel", "http://x/a.png").expect("a valid avatar address");
    assert_eq!(profile.name, "Abc Channel");
    assert_eq!(profile.display_name, "Abc Channel");
    assert_eq!(profile.about, "Description");
    assert_eq!(profile.picture, "http://x/a.png");
    assert_eq!(profile.banner, "http://x/a.png");
    assert_eq!(profile.nip05, "username@example.com");
    assert_eq!(profile.lud16, "0");
    assert_eq!(profile.custom_field, "custom_field");
    assert_eq!(profile.custom_value, "value");
}

#[test]
fn profile_holds_the_address_as_the_parser_writes_it() {
    let profile = NotePublisher::set_metadata("n", "HTTP://Example.COM").unwrap();
    assert_eq!(profile.picture, "http://example.com/");
    assert_eq!(profile.banner, "http://example.com/");
}

#[test]
fn profile_without_a_valid_avatar_is_a_profile_failure() {
    assert_eq!(NotePublisher::set_metadata("Abc Channel", "").unwrap_err(), RelayError::Profile);
    assert_eq!(NotePublisher::set_metadata("Abc Channel", "not an address").unwrap_err(), RelayError::Profile);
    assert_eq!(NotePublisher::set_metadata("Abc Channel", "/relative/path.png").unwrap_err(), RelayError::Profile);
}

#[test]
fn note_carries_the_message() {
    let before = now();
    let note = NotePublisher::publish_text_note("Ep1: http://x/ep1");
    let after = now();
    assert_eq!(note.content, "Ep1: http://x/ep1");
    assert!(note.created_at <= after);
    assert!(note.created_at + 3600 > before);
    let fixed = draft_note("hello", 42);
    assert_eq!(fixed.content, "hello");
    assert_eq!(fixed.created_at, 42);
}
