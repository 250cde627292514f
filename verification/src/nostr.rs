//! What is sent to the relay network: the profile document and the note,
//! with its jittered creation time.

use vstd::prelude::*;
use crate::error::RelayError;

verus! {

/// The profile document that is pushed for an identity before it publishes.
#[derive(Debug)]
pub struct Profile {
    pub name: String,
    pub display_name: String,
    pub about: String,
    pub picture: String,
    pub banner: String,
    pub nip05: String,
    pub lud16: String,
    pub custom_field: String,
    pub custom_value: String,
}

/// Mathematical view of a [`Profile`].
pub struct ProfileView {
    pub name: Seq<char>,
    pub display_name: Seq<char>,
    pub about: Seq<char>,
    pub picture: Seq<char>,
    pub banner: Seq<char>,
    pub nip05: Seq<char>,
    pub lud16: Seq<char>,
    pub custom_field: Seq<char>,
    pub custom_value: Seq<char>,
}

impl View for Profile {
    type V = ProfileView;

    open spec fn view(&self) -> ProfileView {
        ProfileView {
            name: self.name@,
            display_name: self.display_name@,
            about: self.about@,
            picture: self.picture@,
            banner: self.banner@,
            nip05: self.nip05@,
            lud16: self.lud16@,
            custom_field: self.custom_field@,
            custom_value: self.custom_value@,
        }
    }
}

/// A text note that is ready to be signed: its content and the creation
/// time it declares, in seconds since the epoch.
#[derive(Debug)]
pub struct NoteDraft {
    pub content: String,
    pub created_at: u64,
}

/// Mathematical view of a [`NoteDraft`].
pub struct NoteDraftView {
    pub content: Seq<char>,
    pub created_at: u64,
}

impl View for NoteDraft {
    type V = NoteDraftView;

    open spec fn view(&self) -> NoteDraftView {
        NoteDraftView { content: self.content@, created_at: self.created_at }
    }
}

/// The normalised text of the address that `url::Url::parse` reads from
/// `text`, or `None` where it rejects the text.
pub uninterp spec fn url_text(text: Seq<char>) -> Option<Seq<char>>;

/// Calls `url::Url::parse` and hands back the parsed address as text, as the
/// outside crate serialises it; `None` where the text is no address.
#[verifier::external_body]
pub(crate) fn parse_url(text: &str) -> (r: Option<String>)
    ensures
        match r {
            Some(address) => url_text(text@) == Some(address@),
            None => url_text(text@) is None,
        },
{
    match url::Url::parse(text) {
        Ok(address) => Some(String::from(address)),
        Err(_) => None,
    }
}

/// `t` is the time of a clock that is not set before the epoch, moved into
/// the past by a whole number of minutes below sixty.
pub open spec fn jittered_clock(t: u64) -> bool {
    exists|now: int, minutes: int|
        0 <= now <= i64::MAX && 0 <= minutes < 60 && t == #[trigger] jittered(now, minutes)
}

/// Calls `rand::Rng::gen_range` on the thread's generator with the range
/// from zero up to, and without, `bound`; the draw lies in that range.
#[verifier::external_body]
fn random_below(bound: i64) -> (draw: i64)
    requires
        0 < bound,
    ensures
        0 <= draw < bound,
{
    rand::Rng::gen_range(&mut rand::thread_rng(), 0..bound)
}

/// The widest jitter, in minutes: a draw lies below it.
pub const JITTER_MINUTES: i64 = 60;

/// Seconds in a minute.
pub const SECONDS_PER_MINUTE: i64 = 60;

/// The profile document of a channel with this name and this avatar address,
/// given how the avatar address parses.
pub open spec fn profile_of(username: Seq<char>, address: Seq<char>) -> ProfileView {
    ProfileView {
        name: username,
        display_name: username,
        about: "Description"@,
        picture: address,
        banner: address,
        nip05: "username@example.com"@,
        lud16: "0"@,
        custom_field: "custom_field"@,
        custom_value: "value"@,
    }
}

/// What `set_metadata` returns: the document where the avatar is an address,
/// a profile failure where it is not.
pub open spec fn set_metadata_spec(username: Seq<char>, avatar: Seq<char>) -> Result<
    ProfileView,
    RelayError,
> {
    match url_text(avatar) {
        Some(address) => Ok(profile_of(username, address)),
        None => Err(RelayError::Profile),
    }
}

/// The creation time that a note declares: `now` moved `minutes` minutes
/// into the past, as an unsigned number of seconds.
pub open spec fn jittered(now: int, minutes: int) -> u64 {
    (now - minutes * 60) as u64
}

/// Moves `now` by `minutes` minutes into the past.
pub fn jittered_timestamp(now: i64, minutes: i64) -> (t: u64)
    requires
        0 <= minutes < 60,
    ensures
        t == jittered(now as int, minutes as int),
        now >= 3600 ==> now - 3600 < t <= now,
{
    let back: i64 = minutes * SECONDS_PER_MINUTE;
    let shifted: i128 = now as i128 - back as i128;
    #[verifier::truncate]
    (shifted as u64)
}

/// The creation time for a note that is published now: the current time,
/// moved into the past by a random whole number of minutes below sixty.
pub fn custom_created_at() -> (t: u64)
    ensures
        jittered_clock(t),
{
    created_at_from(unix_now())
}

/// The creation time for a note that is published at `now`: `now` moved
/// into the past by a random whole number of minutes below sixty.
pub fn created_at_from(now: i64) -> (t: u64)
    ensures
        exists|minutes: int| 0 <= minutes < 60 && t == #[trigger] jittered(now as int, minutes),
        now >= 3600 ==> now - 3600 < t <= now,
{
    let minutes = random_below(JITTER_MINUTES);
    jittered_timestamp(now, minutes)
}

/// Calls `chrono::Utc::now` and reads the time as whole seconds since the
/// epoch. The outside function takes the seconds that the system clock has
/// run since the epoch and does not return for a clock set before it, so the
/// seconds are never negative.
#[verifier::external_body]
fn unix_now() -> (seconds: i64)
    ensures
        0 <= seconds,
{
    chrono::Utc::now().timestamp()
}

/// The note that carries `message` and declares `created_at`.
pub fn draft_note(message: &str, created_at: u64) -> (note: NoteDraft)
    ensures
        note@ == (NoteDraftView { content: message@, created_at }),
{
    NoteDraft { content: message.to_owned(), created_at }
}

} // verus!
