//! The publish pipeline: connect, profile sync, emit, disconnect.
//!
//! Only the emit step decides the outcome. Connection and profile failures
//! are absorbed, and the sessions are always torn down before the pipeline
//! is done.

use vstd::prelude::*;
use crate::error::{Error, PublishError, RelayError};
use crate::keys::{is_valid_key, secret_key_parses};
use crate::model::{ChannelIdentity, ChannelIdentityView};
use crate::nostr::{
    custom_created_at, draft_note, parse_url, set_metadata_spec, NoteDraft, NoteDraftView,
    Profile, ProfileView,
};
use crate::protocol::{clone_texts, texts, Action, ActionView, Event, EventView};

verus! {

/// One publish attempt: who publishes, what, and where to.
#[derive(Debug)]
pub struct PublishJob {
    pub identity: ChannelIdentity,
    pub message: String,
    pub relays: Vec<String>,
}

/// Mathematical view of a [`PublishJob`].
pub struct PublishJobView {
    pub identity: ChannelIdentityView,
    pub message: Seq<char>,
    pub relays: Seq<Seq<char>>,
}

impl View for PublishJob {
    type V = PublishJobView;

    open spec fn view(&self) -> PublishJobView {
        PublishJobView {
            identity: self.identity@,
            message: self.message@,
            relays: texts(self.relays@),
        }
    }
}

/// Where a publish attempt stands: the answer it waits for.
#[derive(Clone, Copy, Debug, PartialEq, Eq, Structural)]
pub enum Stage {
    Connecting,
    SyncingProfile,
    Emitting,
    Disconnecting,
    Done,
}

/// A publish attempt in progress.
#[derive(Debug)]
pub struct NotePublisher {
    job: PublishJob,
    stage: Stage,
    sessions: usize,
    profile_synced: bool,
    emitted: bool,
}

/// Mathematical view of a [`NotePublisher`].
pub struct NotePublisherView {
    pub job: PublishJobView,
    pub stage: Stage,
    /// Relays that a session was established to.
    pub sessions: usize,
    /// Whether the profile document was pushed.
    pub profile_synced: bool,
    /// Whether the emit step completed.
    pub emitted: bool,
}

impl View for NotePublisher {
    type V = NotePublisherView;

    closed spec fn view(&self) -> NotePublisherView {
        NotePublisherView {
            job: self.job@,
            stage: self.stage,
            sessions: self.sessions,
            profile_synced: self.profile_synced,
            emitted: self.emitted,
        }
    }
}

/// A fresh attempt and its first request: connect to every relay.
pub open spec fn publish_start(job: PublishJobView) -> (NotePublisherView, ActionView) {
    (
        NotePublisherView {
            job,
            stage: Stage::Connecting,
            sessions: 0,
            profile_synced: false,
            emitted: false,
        },
        ActionView::Connect { relays: job.relays, private_key: job.identity.private_key },
    )
}

/// How an attempt begins: with the connect request where the identity's
/// secret key can be read, and not at all where it cannot.
pub open spec fn publish_begin(job: PublishJobView) -> Result<
    (NotePublisherView, ActionView),
    Error,
> {
    if secret_key_parses(job.identity.private_key) {
        Ok(publish_start(job))
    } else {
        Err(Error::Nostr)
    }
}

/// The emit step: the note is requested with this creation time.
pub open spec fn publish_emit(p: NotePublisherView, created_at: u64) -> (
    NotePublisherView,
    ActionView,
) {
    (
        NotePublisherView { stage: Stage::Emitting, ..p },
        ActionView::Publish { note: NoteDraftView { content: p.job.message, created_at } },
    )
}

/// The teardown step.
pub open spec fn publish_teardown(p: NotePublisherView) -> (NotePublisherView, ActionView) {
    (NotePublisherView { stage: Stage::Disconnecting, ..p }, ActionView::Disconnect)
}

/// The step after connecting: push the profile where a document can be
/// built, else go straight on to the emit step.
pub open spec fn publish_after_connect(p: NotePublisherView, created_at: u64) -> (
    NotePublisherView,
    ActionView,
) {
    match set_metadata_spec(p.job.identity.display_name, p.job.identity.avatar_url) {
        Ok(profile) => (
            NotePublisherView { stage: Stage::SyncingProfile, ..p },
            ActionView::SetProfile { profile },
        ),
        Err(_) => publish_emit(p, created_at),
    }
}

/// The transition of the pipeline: the attempt after `event`, and the next
/// request. `created_at` is the creation time for a note that this step
/// may request. An answer that the stage does not wait for sends the attempt
/// to the teardown.
pub open spec fn publish_next(p: NotePublisherView, event: EventView, created_at: u64) -> (
    NotePublisherView,
    ActionView,
) {
    match p.stage {
        Stage::Connecting => match event {
            EventView::Connected(sessions) => publish_after_connect(
                NotePublisherView { sessions, ..p },
                created_at,
            ),
            _ => publish_teardown(p),
        },
        Stage::SyncingProfile => match event {
            EventView::ProfileSet(r) => publish_emit(
                NotePublisherView { profile_synced: r is Ok, ..p },
                created_at,
            ),
            _ => publish_teardown(p),
        },
        Stage::Emitting => match event {
            EventView::Published(r) => publish_teardown(
                NotePublisherView { emitted: r is Ok, ..p },
            ),
            _ => publish_teardown(p),
        },
        Stage::Disconnecting => (NotePublisherView { stage: Stage::Done, ..p }, ActionView::Finish),
        Stage::Done => (p, ActionView::Finish),
    }
}

/// The outcome of an attempt: none before it is done; then success exactly
/// if the emit step completed.
pub open spec fn publish_result(p: NotePublisherView) -> Option<Result<(), PublishError>> {
    if p.stage == Stage::Done {
        if p.emitted {
            Some(Ok(()))
        } else {
            Some(Err(PublishError::Emit))
        }
    } else {
        None
    }
}

impl NotePublisher {
    /// Starts an attempt. The first request is to connect to every relay of
    /// the job. An identity whose secret key cannot be read gets no attempt:
    /// nothing is requested from the relays.
    pub fn new(job: PublishJob) -> (r: Result<(NotePublisher, Action), Error>)
        ensures
            match r {
                Ok(started) => publish_begin(job@) == Ok::<(NotePublisherView, ActionView), Error>(
                    (started.0@, started.1@),
                ),
                Err(e) => publish_begin(job@) == Err::<(NotePublisherView, ActionView), Error>(e),
            },
    {
        if !is_valid_key(job.identity.private_key.as_str()) {
            return Err(Error::Nostr);
        }
        let action = Action::Connect {
            relays: clone_texts(&job.relays),
            private_key: job.identity.private_key.clone(),
        };
        Ok(
            (
                NotePublisher {
                    job,
                    stage: Stage::Connecting,
                    sessions: 0,
                    profile_synced: false,
                    emitted: false,
                },
                action,
            ),
        )
    }

    /// Builds the profile document of a channel: its name, its avatar as picture
    /// and banner, and the fixed descriptive fields. An avatar that is no
    /// address gives a profile failure and no document.
    pub fn set_metadata(username: &str, avatar: &str) -> (r: Result<Profile, RelayError>)
        ensures
            match r {
                Ok(profile) => set_metadata_spec(username@, avatar@) == Ok::<ProfileView, RelayError>(
                    profile@,
                ),
                Err(e) => set_metadata_spec(username@, avatar@) == Err::<ProfileView, RelayError>(e),
            },
    {
        match parse_url(avatar) {
            Some(address) => Ok(
                Profile {
                    name: username.to_owned(),
                    display_name: username.to_owned(),
                    about: "Description".to_owned(),
                    picture: address.clone(),
                    banner: address,
                    nip05: "username@example.com".to_owned(),
                    lud16: "0".to_owned(),
                    custom_field: "custom_field".to_owned(),
                    custom_value: "value".to_owned(),
                },
            ),
            None => Err(RelayError::Profile),
        }
    }

    /// The note that carries `message`, with a freshly jittered creation time.
    pub fn publish_text_note(message: &str) -> (note: NoteDraft)
        ensures
            note@.content == message@,
    {
        NoteDraft { content: message.to_owned(), created_at: custom_created_at() }
    }

    /// The stage of the attempt.
    pub fn stage(&self) -> (s: Stage)
        ensures
            s == self@.stage,
    {
        self.stage
    }

    /// Whether the attempt is over.
    pub fn is_done(&self) -> (b: bool)
        ensures
            b == (self@.stage == Stage::Done),
    {
        match self.stage {
            Stage::Done => true,
            _ => false,
        }
    }

    /// The outcome of the attempt, once it is over.
    pub fn result(&self) -> (r: Option<Result<(), PublishError>>)
        ensures
            r == publish_result(self@),
    {
        match self.stage {
            Stage::Done => if self.emitted {
                Some(Ok(()))
            } else {
                Some(Err(PublishError::Emit))
            },
            _ => None,
        }
    }

    fn emit(self, created_at: u64) -> (r: (NotePublisher, Action))
        ensures
            (r.0@, r.1@) == publish_emit(self@, created_at),
    {
        let note = draft_note(self.job.message.as_str(), created_at);
        (NotePublisher { stage: Stage::Emitting, ..self }, Action::Publish { note })
    }

    fn teardown(self) -> (r: (NotePublisher, Action))
        ensures
            (r.0@, r.1@) == publish_teardown(self@),
    {
        (NotePublisher { stage: Stage::Disconnecting, ..self }, Action::Disconnect)
    }

    fn after_connect(self, created_at: u64) -> (r: (NotePublisher, Action))
        ensures
            (r.0@, r.1@) == publish_after_connect(self@, created_at),
    {
        match NotePublisher::set_metadata(
            self.job.identity.display_name.as_str(),
            self.job.identity.avatar_url.as_str(),
        ) {
            Ok(profile) => (
                NotePublisher { stage: Stage::SyncingProfile, ..self },
                Action::SetProfile { profile },
            ),
            Err(_) => self.emit(created_at),
        }
    }

    /// Takes the answer to the last request and says what to do next, for a
    /// given creation time of the note.
    pub fn step_at(self, event: Event, created_at: u64) -> (r: (NotePublisher, Action))
        ensures
            (r.0@, r.1@) == publish_next(self@, event@, created_at),
    {
        match self.stage {
            Stage::Connecting => match event {
                Event::Connected(sessions) => {
                    let connected = NotePublisher { sessions, ..self };
                    connected.after_connect(created_at)
                },
                _ => self.teardown(),
            },
            Stage::SyncingProfile => match event {
                Event::ProfileSet(r) => {
                    let synced = NotePublisher { profile_synced: r.is_ok(), ..self };
                    synced.emit(created_at)
                },
                _ => self.teardown(),
            },
            Stage::Emitting => match event {
                Event::Published(r) => {
                    let emitted = NotePublisher { emitted: r.is_ok(), ..self };
                    emitted.teardown()
                },
                _ => self.teardown(),
            },
            Stage::Disconnecting => (NotePublisher { stage: Stage::Done, ..self }, Action::Finish),
            Stage::Done => (self, Action::Finish),
        }
    }

    /// Takes the answer to the last request and says what to do next. A note
    /// that is requested declares a creation time that was jittered just now.
    pub fn step(self, event: Event) -> (r: (NotePublisher, Action))
        ensures
            exists|created_at: u64| (r.0@, r.1@) == publish_next(self@, event@, created_at),
    {
        let drawn = match (self.stage, &event) {
            (Stage::Connecting, Event::Connected(_)) => true,
            (Stage::SyncingProfile, Event::ProfileSet(_)) => true,
            _ => false,
        };
        let created_at: u64 = if drawn {
            custom_created_at()
        } else {
            0
        };
        let ghost before = self@;
        let ghost answer = event@;
        let r = self.step_at(event, created_at);
        assert((r.0@, r.1@) == publish_next(before, answer, created_at));
        r
    }

    /// The number of relays that a session was established to.
    pub fn sessions(&self) -> (n: usize)
        ensures
            n == self@.sessions,
    {
        self.sessions
    }

    /// Whether the profile document was pushed.
    pub fn profile_synced(&self) -> (b: bool)
        ensures
            b == self@.profile_synced,
    {
        self.profile_synced
    }
}

} // verus!
