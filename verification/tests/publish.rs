use youtube_bot::error::{Error, PublishError, RelayError};
use youtube_bot::keys::new_key;
use youtube_bot::model::ChannelIdentity;
use youtube_bot::protocol::{Action, Event};
use youtube_bot::publish::{PublishJob, Stage};
use youtube_bot::NotePublisher;

fn relays() -> Vec<String> {
    vec!["wss://r1".to_string(), "wss://r2".to_string(), "wss://down".to_string()]
}

fn job_with(avatar: &str, private_key: &str) -> PublishJob {
    PublishJob {
        identity: ChannelIdentity {
            channel_key: "abc".to_string(),
            display_name: "Abc Channel".to_string(),
            avatar_url: avatar.to_string(),
            public_key: "npub1x".to_string(),
            private_key: private_key.to_string(),
            remote_channel_id: "UC123".to_string(),
        },
        message: "Ep1: http://x/ep1".to_string(),
        relays: relays(),
    }
}

fn job(avatar: &str) -> (PublishJob, String) {
    let secret = new_key().unwrap().secret_key;
    (job_with(avatar, &secret), secret)
}

/// Runs a whole attempt and gives its outcome and the names of the requests.
fn run(
    avatar: &str,
    sessions: usize,
    profile: Result<(), RelayError>,
    emit: Result<(), RelayError>,
    disconnect: Result<(), RelayError>,
) -> (Option<Result<(), PublishError>>, Vec<&'static str>) {
    let (job, _) = job(avatar);
    let (mut publisher, mut action) = NotePublisher::new(job).expect("valid key");
    let mut asked = Vec::new();
    loop {
        let event = match &action {
            Action::Connect { .. } => {
                asked.push("connect");
                Event::Connected(sessions)
            }
            Action::SetProfile { .. } => {
                asked.push("set_profile");
                Event::ProfileSet(profile)
            }
            Action::Publish { .. } => {
                asked.push("publish");
                Event::Published(emit)
            }
            Action::Disconnect => {
                asked.push("disconnect");
                Event::Disconnected(disconnect)
            }
            Action::Finish => break,
            other => panic!("not a relay request: {:?}", other),
        };
        assert!(publisher.result().is_none());
        let (next, next_action) = publisher.step(event);
        publisher = next;
        action = next_action;
    }
    assert!(publisher.is_done());
    (publisher.result(), asked)
}

#[test]
fn publish_succeeds_with_one_of_three_relays_unreachable() {
    let (outcome, asked) = run("http://x/a.png", 2, Ok(()), Ok(()), Ok(()));
    assert_eq!(outcome, Some(Ok(())));
    assert_eq!(asked, vec!["connect", "set_profile", "publish", "disconnect"]);
}

#[test]
fn publish_succeeds_as_long_as_the_emit_step_does() {
    let (outcome, asked) = run("http://x/a.png", 1, Err(RelayError::Profile), Ok(()), Ok(()));
    assert_eq!(outcome, Some(Ok(())));
    assert_eq!(asked, vec!["connect", "set_profile", "publish", "disconnect"]);
    let (outcome, _) = run("http://x/a.png", 3, Ok(()), Ok(()), Err(RelayError::Disconnect));
    assert_eq!(outcome, Some(Ok(())));
}

#[test]
fn no_relay_connected_does_not_abort_the_remaining_steps() {
    let (outcome, asked) = run("http://x/a.png", 0, Err(RelayError::Profile), Err(RelayError::Emit), Ok(()));
    assert_eq!(outcome, Some(Err(PublishError::Emit)));
    assert_eq!(asked, vec!["connect", "set_profile", "publish", "disconnect"]);
}

#[test]
fn emit_failure_is_the_only_fatal_step_and_still_disconnects() {
    let (outcome, asked) = run("http://x/a.png", 3, Ok(()), Err(RelayError::Emit), Ok(()));
    assert_eq!(outcome, Some(Err(PublishError::Emit)));
    assert_eq!(asked.last(), Some(&"disconnect"));
}

#[test]
fn an_avatar_that_is_no_address_skips_the_profile_step() {
    let (outcome, asked) = run("no address", 3, Ok(()), Ok(()), Ok(()));
    assert_eq!(outcome, Some(Ok(())));
    assert_eq!(asked, vec!["connect", "publish", "disconnect"]);
}

#[test]
fn first_request_connects_to_every_relay_with_the_identitys_key() {
    let (job, secret) = job("http://x/a.png");
    let (publisher, action) = NotePublisher::new(job).unwrap();
    assert_eq!(publisher.stage(), Stage::Connecting);
    match action {
        Action::Connect { relays: asked, private_key } => {
            assert_eq!(asked, relays());
            assert_eq!(private_key, secret);
        }
        other => panic!("not a connect request: {:?}", other),
    }
}

#[test]
fn requests_carry_the_profile_and_the_note() {
    let (job, _) = job("http://x/a.png");
    let (publisher, _) = NotePublisher::new(job).unwrap();
    let (publisher, action) = publisher.step_at(Event::Connected(3), 7);
    assert_eq!(publisher.stage(), Stage::SyncingProfile);
    match action {
        Action::SetProfile { profile } => {
            assert_eq!(profile.name, "Abc Channel");
            assert_eq!(profile.picture, "http://x/a.png");
        }
        other => panic!("not a profile request: {:?}", other),
    }
    let (publisher, action) = publisher.step_at(Event::ProfileSet(Ok(())), 1_700_000_000);
    assert_eq!(publisher.stage(), Stage::Emitting);
    match action {
        Action::Publish { note } => {
            assert_eq!(note.content, "Ep1: http://x/ep1");
            assert_eq!(note.created_at, 1_700_000_000);
        }
        other => panic!("not a publish request: {:?}", other),
    }
    let (publisher, action) = publisher.step_at(Event::Published(Ok(())), 0);
    assert_eq!(publisher.stage(), Stage::Disconnecting);
    assert!(matches!(action, Action::Disconnect));
    let (publisher, action) = publisher.step_at(Event::Disconnected(Ok(())), 0);
    assert!(matches!(action, Action::Finish));
    assert_eq!(publisher.result(), Some(Ok(())));
    let (publisher, action) = publisher.step_at(Event::Connected(1), 0);
    assert!(matches!(action, Action::Finish));
    assert_eq!(publisher.result(), Some(Ok(())));
}

#[test]
fn an_answer_that_is_not_waited_for_leads_to_the_teardown() {
    let (job, _) = job("http://x/a.png");
    let (publisher, _) = NotePublisher::new(job).unwrap();
    let (publisher, action) = publisher.step(Event::Published(Ok(())));
    assert!(matches!(action, Action::Disconnect));
    assert_eq!(publisher.stage(), Stage::Disconnecting);
    let (publisher, action) = publisher.step(Event::Disconnected(Ok(())));
    assert!(matches!(action, Action::Finish));
    assert_eq!(publisher.result(), Some(Err(PublishError::Emit)));
}

#[test]
fn an_identity_without_a_readable_key_gets_no_attempt() {
    let started = NotePublisher::new(job_with("http://x/a.png", "garbage"));
    assert!(matches!(started, Err(Error::Nostr)));
}
