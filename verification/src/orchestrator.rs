//! One channel's poll cycle: resolve the identity, fetch the new items, and
//! for each item check the ledger, record it and publish it.
//!
//! The cycle never performs outside work itself. It asks for it with an
//! [`Action`] and takes the answer as an [`Event`]; every failure ends this
//! channel's cycle or this item's attempt and nothing else.

use vstd::prelude::*;
use vstd::string::StringExecFns;
use crate::error::{Error, RelayError, StorageError};
use crate::keys::new_key;
use crate::model::{
    minted, ChannelIdentity, ChannelIdentityView, IngestedItem, IngestedItemView, MyKey, MyKeyView,
};
use crate::nostr::custom_created_at;
use crate::protocol::{
    clone_texts, entries, texts, Action, ActionView, Event, EventView, VideoInfo, VideoInfoView,
};
use crate::publish::{
    publish_begin, publish_next, NotePublisher, NotePublisherView, PublishJob, PublishJobView,
    Stage,
};

verus! {

/// Where a channel's cycle stands: the answer it waits for.
#[derive(Clone, Copy, Debug, PartialEq, Eq, Structural)]
pub enum Phase {
    /// Waiting for the identity store's answer to the lookup.
    CheckIdentity,
    /// The channel has no identity; waiting for its metadata.
    AwaitMetadata,
    /// A new identity was minted; waiting for the store to persist it.
    StoreIdentity,
    /// The identity is ready; waiting for the list of new items.
    FetchItems,
    /// Waiting for the ledger's answer on the current item.
    DedupCheck,
    /// Waiting for the ledger to record the current item.
    Record,
    /// The current item is being published.
    Publish,
    /// The cycle is over.
    CycleDone,
}

/// One channel's cycle.
#[derive(Debug)]
pub struct App {
    channel_key: String,
    relays: Vec<String>,
    phase: Phase,
    identity: Option<ChannelIdentity>,
    items: Vec<VideoInfo>,
    cursor: usize,
    publisher: Option<NotePublisher>,
    failure: Option<Error>,
    published: usize,
    failed: usize,
    last_error: Option<Error>,
}

/// Mathematical view of an [`App`].
pub struct AppView {
    pub channel_key: Seq<char>,
    pub relays: Seq<Seq<char>>,
    pub phase: Phase,
    /// The channel's identity, from the moment it is ready.
    pub identity: Option<ChannelIdentityView>,
    /// The items that the upstream listed in this cycle.
    pub items: Seq<VideoInfoView>,
    /// The number of items that were dealt with.
    pub cursor: nat,
    /// The publish attempt for the current item.
    pub publisher: Option<NotePublisherView>,
    /// Why the cycle was given up, if it was.
    pub failure: Option<Error>,
    /// Items whose note was emitted.
    pub published: nat,
    /// Items that were recorded but whose note was not emitted.
    pub failed: nat,
    /// Why the latest of those items was not published.
    pub last_error: Option<Error>,
}

impl View for App {
    type V = AppView;

    closed spec fn view(&self) -> AppView {
        AppView {
            channel_key: self.channel_key@,
            relays: texts(self.relays@),
            phase: self.phase,
            identity: match self.identity {
                Some(identity) => Some(identity@),
                None => None,
            },
            items: entries(self.items@),
            cursor: self.cursor as nat,
            publisher: match self.publisher {
                Some(publisher) => Some(publisher@),
                None => None,
            },
            failure: self.failure,
            published: self.published as nat,
            failed: self.failed as nat,
            last_error: self.last_error,
        }
    }
}

/// The text that is published for an item: its title, a colon and its link.
pub open spec fn message_of(item: VideoInfoView) -> Seq<char> {
    item.title + ": "@ + item.link
}

/// The ledger record of an item of this channel.
pub open spec fn ingested(channel_key: Seq<char>, item: VideoInfoView) -> IngestedItemView {
    IngestedItemView {
        channel_key,
        title: item.title,
        link: item.link,
        author: item.author_name,
        published_flag: false,
    }
}

/// What holds of every cycle that `App::new` and the steps produce.
pub open spec fn cycle_inv(s: AppView) -> bool {
    &&& s.cursor <= s.items.len()
    &&& s.published + s.failed <= s.cursor
    &&& (s.phase == Phase::FetchItems || s.phase == Phase::DedupCheck || s.phase == Phase::Record
        || s.phase == Phase::Publish || s.phase == Phase::StoreIdentity) ==> s.identity is Some
    &&& (s.phase == Phase::DedupCheck || s.phase == Phase::Record || s.phase == Phase::Publish)
        ==> s.cursor < s.items.len()
    &&& (s.phase == Phase::Publish) <==> s.publisher is Some
    &&& s.publisher matches Some(p) ==> p.stage != Stage::Done
    &&& (s.phase == Phase::CycleDone && s.failure is None) ==> s.cursor == s.items.len()
    &&& s.failure is Some ==> s.phase == Phase::CycleDone
}

/// A fresh cycle and its first request: look the channel's identity up.
pub open spec fn cycle_start(channel_key: Seq<char>, relays: Seq<Seq<char>>) -> (
    AppView,
    ActionView,
) {
    (
        AppView {
            channel_key,
            relays,
            phase: Phase::CheckIdentity,
            identity: None,
            items: Seq::empty(),
            cursor: 0,
            publisher: None,
            failure: None,
            published: 0,
            failed: 0,
            last_error: None,
        },
        ActionView::LookupIdentity { channel_key },
    )
}

/// The cycle is given up for this reason. Nothing more is requested.
pub open spec fn cycle_abort(s: AppView, reason: Error) -> (AppView, ActionView) {
    (
        AppView { phase: Phase::CycleDone, failure: Some(reason), publisher: None, ..s },
        ActionView::Finish,
    )
}

/// The identity is ready: the channel's new items are requested.
pub open spec fn cycle_identity_ready(s: AppView, identity: ChannelIdentityView) -> (
    AppView,
    ActionView,
) {
    (
        AppView { phase: Phase::FetchItems, identity: Some(identity), ..s },
        ActionView::FetchItems { remote_channel_id: identity.remote_channel_id },
    )
}

/// Turns to the item at the cursor: the ledger is asked about its link. When
/// no item is left the cycle is done.
pub open spec fn cycle_advance(s: AppView) -> (AppView, ActionView) {
    if s.cursor < s.items.len() {
        (
            AppView { phase: Phase::DedupCheck, ..s },
            ActionView::CheckExists { link: s.items[s.cursor as int].link },
        )
    } else {
        (AppView { phase: Phase::CycleDone, ..s }, ActionView::Finish)
    }
}

/// The publish attempt for the item at the cursor.
pub open spec fn cycle_job(s: AppView) -> PublishJobView {
    PublishJobView {
        identity: s.identity->0,
        message: message_of(s.items[s.cursor as int]),
        relays: s.relays,
    }
}

/// The transitions that resolve the identity. `keys` is the key pair for an
/// identity that this step may mint.
pub open spec fn check_user_next(s: AppView, event: EventView, keys: MyKeyView) -> (
    AppView,
    ActionView,
) {
    let unresolved = AppView { identity: None, ..s };
    match s.phase {
        Phase::CheckIdentity => match event {
            EventView::Identity(Ok(Some(identity))) => cycle_identity_ready(s, identity),
            EventView::Identity(Ok(None)) => (
                AppView { phase: Phase::AwaitMetadata, ..s },
                ActionView::FetchMetadata { channel_key: s.channel_key },
            ),
            EventView::Identity(Err(e)) => cycle_abort(unresolved, Error::DbError(e)),
            _ => cycle_abort(unresolved, Error::UnexpectedEvent),
        },
        Phase::AwaitMetadata => match event {
            EventView::Metadata(Ok(metadata)) => {
                let identity = minted(s.channel_key, metadata, keys);
                (
                    AppView { phase: Phase::StoreIdentity, identity: Some(identity), ..s },
                    ActionView::StoreIdentity { identity },
                )
            },
            EventView::Metadata(Err(_)) => cycle_abort(unresolved, Error::UpstreamFetch),
            _ => cycle_abort(unresolved, Error::UnexpectedEvent),
        },
        _ => match event {
            EventView::IdentityStored(Ok(())) => cycle_identity_ready(s, s.identity->0),
            EventView::IdentityStored(Err(e)) => cycle_abort(unresolved, Error::DbError(e)),
            _ => cycle_abort(unresolved, Error::UnexpectedEvent),
        },
    }
}

/// The transitions that take the new items in: the list arrives, and each
/// item is checked against the ledger and, if it is new, recorded. An item
/// that the ledger knows, or refuses as a duplicate, is passed over. An item
/// that was recorded is published next; where the identity's secret key
/// cannot be read, it counts as failed at once.
pub open spec fn get_contents_next(s: AppView, event: EventView) -> (AppView, ActionView) {
    let passed_over = AppView { cursor: s.cursor + 1, ..s };
    match s.phase {
        Phase::FetchItems => match event {
            EventView::Items(Ok(items)) => cycle_advance(
                AppView { items, cursor: 0, published: 0, failed: 0, ..s },
            ),
            EventView::Items(Err(_)) => cycle_abort(s, Error::UpstreamFetch),
            _ => cycle_abort(s, Error::UnexpectedEvent),
        },
        Phase::DedupCheck => match event {
            EventView::Exists(Ok(true)) => cycle_advance(passed_over),
            EventView::Exists(Ok(false)) => (
                AppView { phase: Phase::Record, ..s },
                ActionView::Record { item: ingested(s.channel_key, s.items[s.cursor as int]) },
            ),
            EventView::Exists(Err(e)) => cycle_abort(s, Error::DbError(e)),
            _ => cycle_abort(s, Error::UnexpectedEvent),
        },
        _ => match event {
            EventView::Recorded(Ok(())) => match publish_begin(cycle_job(s)) {
                Ok((publisher, action)) => (
                    AppView { phase: Phase::Publish, publisher: Some(publisher), ..s },
                    action,
                ),
                Err(e) => cycle_advance(
                    AppView { failed: s.failed + 1, last_error: Some(e), ..passed_over },
                ),
            },
            EventView::Recorded(Err(StorageError::Duplicate)) => cycle_advance(passed_over),
            EventView::Recorded(Err(e)) => cycle_abort(s, Error::DbError(e)),
            _ => cycle_abort(s, Error::UnexpectedEvent),
        },
    }
}

/// The transitions while the current item is published: the answer goes to
/// the publish attempt. When the attempt is over its outcome is counted and
/// the cycle turns to the next item, whatever the outcome was.
pub open spec fn publish_phase_next(s: AppView, event: EventView, created_at: u64) -> (
    AppView,
    ActionView,
) {
    let (publisher, action) = publish_next(s.publisher->0, event, created_at);
    if publisher.stage == Stage::Done {
        cycle_advance(
            AppView {
                publisher: None,
                cursor: s.cursor + 1,
                published: if publisher.emitted {
                    s.published + 1
                } else {
                    s.published
                },
                failed: if publisher.emitted {
                    s.failed
                } else {
                    s.failed + 1
                },
                last_error: if publisher.emitted {
                    s.last_error
                } else {
                    Some(Error::NostrWrapper(RelayError::Emit))
                },
                ..s
            },
        )
    } else {
        (AppView { publisher: Some(publisher), ..s }, action)
    }
}

/// The transition of a cycle: the cycle after `event`, and the next request.
/// `keys` is used where the step mints an identity, `created_at` where it
/// requests a note.
pub open spec fn cycle_next(s: AppView, event: EventView, keys: MyKeyView, created_at: u64) -> (
    AppView,
    ActionView,
) {
    match s.phase {
        Phase::CheckIdentity | Phase::AwaitMetadata | Phase::StoreIdentity => check_user_next(
            s,
            event,
            keys,
        ),
        Phase::FetchItems | Phase::DedupCheck | Phase::Record => get_contents_next(s, event),
        Phase::Publish => publish_phase_next(s, event, created_at),
        Phase::CycleDone => (s, ActionView::Finish),
    }
}

impl VideoInfo {
    /// The text that is published for the item.
    pub fn message(&self) -> (m: String)
        ensures
            m@ == message_of(self@),
    {
        self.title.clone().concat(": ").concat(self.link.as_str())
    }

    /// The ledger record of the item, for this channel.
    pub fn ingest(&self, channel_key: &str) -> (item: IngestedItem)
        ensures
            item@ == ingested(channel_key@, self@),
    {
        IngestedItem {
            channel_key: channel_key.to_owned(),
            title: self.title.clone(),
            link: self.link.clone(),
            author: self.author_name.clone(),
            published_flag: false,
        }
    }
}

impl App {
    /// Starts the cycle of a channel. The first request is the identity lookup.
    pub fn new(channel_key: &str, relays: &Vec<String>) -> (r: (App, Action))
        ensures
            (r.0@, r.1@) == cycle_start(channel_key@, texts(relays@)),
            cycle_inv(r.0@),
    {
        let app = App {
            channel_key: channel_key.to_owned(),
            relays: clone_texts(relays),
            phase: Phase::CheckIdentity,
            identity: None,
            items: Vec::new(),
            cursor: 0,
            publisher: None,
            failure: None,
            published: 0,
            failed: 0,
            last_error: None,
        };
        assert(entries(app.items@) =~= Seq::empty());
        (app, Action::LookupIdentity { channel_key: channel_key.to_owned() })
    }

    /// The phase of the cycle.
    pub fn phase(&self) -> (p: Phase)
        ensures
            p == self@.phase,
    {
        self.phase
    }

    /// Whether the cycle is over.
    pub fn is_done(&self) -> (b: bool)
        ensures
            b == (self@.phase == Phase::CycleDone),
    {
        match self.phase {
            Phase::CycleDone => true,
            _ => false,
        }
    }

    /// Why the cycle was given up, if it was.
    pub fn failure(&self) -> (e: Option<Error>)
        ensures
            e == self@.failure,
    {
        self.failure
    }

    /// The channel's identity, from the moment it is ready.
    pub fn identity(&self) -> (r: Option<ChannelIdentity>)
        ensures
            match r {
                Some(identity) => self@.identity == Some(identity@),
                None => self@.identity is None,
            },
    {
        match &self.identity {
            Some(identity) => Some(identity.clone()),
            None => None,
        }
    }

    /// The number of items whose note was emitted in this cycle.
    pub fn published(&self) -> (n: usize)
        ensures
            n == self@.published,
    {
        self.published
    }

    /// The number of items that were recorded in this cycle but whose note
    /// was not emitted.
    pub fn failed(&self) -> (n: usize)
        ensures
            n == self@.failed,
    {
        self.failed
    }

    /// Why the latest of those items was not published.
    pub fn last_error(&self) -> (e: Option<Error>)
        ensures
            e == self@.last_error,
    {
        self.last_error
    }

    fn abort(self, reason: Error) -> (r: (App, Action))
        ensures
            (r.0@, r.1@) == cycle_abort(self@, reason),
    {
        (
            App { phase: Phase::CycleDone, failure: Some(reason), publisher: None, ..self },
            Action::Finish,
        )
    }

    fn abort_unresolved(self, reason: Error) -> (r: (App, Action))
        ensures
            (r.0@, r.1@) == cycle_abort(AppView { identity: None, ..self@ }, reason),
    {
        (
            App {
                phase: Phase::CycleDone,
                failure: Some(reason),
                publisher: None,
                identity: None,
                ..self
            },
            Action::Finish,
        )
    }

    fn identity_ready(self, identity: ChannelIdentity) -> (r: (App, Action))
        ensures
            (r.0@, r.1@) == cycle_identity_ready(self@, identity@),
    {
        let action = Action::FetchItems { remote_channel_id: identity.remote_channel_id.clone() };
        (App { phase: Phase::FetchItems, identity: Some(identity), ..self }, action)
    }

    fn advance(self) -> (r: (App, Action))
        requires
            self@.cursor <= self@.items.len(),
        ensures
            (r.0@, r.1@) == cycle_advance(self@),
    {
        if self.cursor < self.items.len() {
            let action = Action::CheckExists { link: self.items[self.cursor].link.clone() };
            (App { phase: Phase::DedupCheck, ..self }, action)
        } else {
            (App { phase: Phase::CycleDone, ..self }, Action::Finish)
        }
    }

    /// Resolves the channel's identity: takes the store's or the upstream's
    /// answer and says what to do next. An identity is minted, with `keys`,
    /// only when the store has none and the metadata arrived; it counts as
    /// ready only once the store has persisted it.
    pub fn check_user(self, event: Event, keys: MyKey) -> (r: (App, Action))
        requires
            cycle_inv(self@),
            self@.phase == Phase::CheckIdentity || self@.phase == Phase::AwaitMetadata
                || self@.phase == Phase::StoreIdentity,
        ensures
            (r.0@, r.1@) == check_user_next(self@, event@, keys@),
            cycle_inv(r.0@),
    {
        match self.phase {
            Phase::CheckIdentity => match event {
                Event::Identity(Ok(Some(identity))) => self.identity_ready(identity),
                Event::Identity(Ok(None)) => {
                    let action = Action::FetchMetadata { channel_key: self.channel_key.clone() };
                    (App { phase: Phase::AwaitMetadata, ..self }, action)
                },
                Event::Identity(Err(e)) => self.abort_unresolved(Error::DbError(e)),
                _ => self.abort_unresolved(Error::UnexpectedEvent),
            },
            Phase::AwaitMetadata => match event {
                Event::Metadata(Ok(metadata)) => {
                    let identity = ChannelIdentity::mint(self.channel_key.as_str(), &metadata, &keys);
                    let action = Action::StoreIdentity { identity: identity.clone() };
                    (App { phase: Phase::StoreIdentity, identity: Some(identity), ..self }, action)
                },
                Event::Metadata(Err(_)) => self.abort_unresolved(Error::UpstreamFetch),
                _ => self.abort_unresolved(Error::UnexpectedEvent),
            },
            _ => match event {
                Event::IdentityStored(Ok(())) => {
                    let identity = self.identity.as_ref().unwrap().clone();
                    self.identity_ready(identity)
                },
                Event::IdentityStored(Err(e)) => self.abort_unresolved(Error::DbError(e)),
                _ => self.abort_unresolved(Error::UnexpectedEvent),
            },
        }
    }

    /// Takes the new items in: takes the upstream's or the ledger's answer
    /// and says what to do next. An item that the ledger already holds is
    /// passed over without a record and without a publish attempt; a new item
    /// is recorded first and published only after the record succeeded.
    pub fn get_contents(self, event: Event) -> (r: (App, Action))
        requires
            cycle_inv(self@),
            self@.phase == Phase::FetchItems || self@.phase == Phase::DedupCheck || self@.phase
                == Phase::Record,
        ensures
            (r.0@, r.1@) == get_contents_next(self@, event@),
            cycle_inv(r.0@),
    {
        assert(self@.items.len() == self.items.len());
        match self.phase {
            Phase::FetchItems => match event {
                Event::Items(Ok(items)) => {
                    let listed = App { items, cursor: 0, published: 0, failed: 0, ..self };
                    listed.advance()
                },
                Event::Items(Err(_)) => self.abort(Error::UpstreamFetch),
                _ => self.abort(Error::UnexpectedEvent),
            },
            Phase::DedupCheck => match event {
                Event::Exists(Ok(true)) => {
                    let passed_over = App { cursor: self.cursor + 1, ..self };
                    passed_over.advance()
                },
                Event::Exists(Ok(false)) => {
                    let item = self.items[self.cursor].ingest(self.channel_key.as_str());
                    (App { phase: Phase::Record, ..self }, Action::Record { item })
                },
                Event::Exists(Err(e)) => self.abort(Error::DbError(e)),
                _ => self.abort(Error::UnexpectedEvent),
            },
            _ => match event {
                Event::Recorded(Ok(())) => {
                    let identity = self.identity.as_ref().unwrap().clone();
                    let job = PublishJob {
                        identity,
                        message: self.items[self.cursor].message(),
                        relays: clone_texts(&self.relays),
                    };
                    match NotePublisher::new(job) {
                        Ok((publisher, action)) => (
                            App { phase: Phase::Publish, publisher: Some(publisher), ..self },
                            action,
                        ),
                        Err(e) => {
                            let counted = App {
                                cursor: self.cursor + 1,
                                failed: self.failed + 1,
                                last_error: Some(e),
                                ..self
                            };
                            counted.advance()
                        },
                    }
                },
                Event::Recorded(Err(StorageError::Duplicate)) => {
                    let passed_over = App { cursor: self.cursor + 1, ..self };
                    passed_over.advance()
                },
                Event::Recorded(Err(e)) => self.abort(Error::DbError(e)),
                _ => self.abort(Error::UnexpectedEvent),
            },
        }
    }

    /// Publishes the current item: hands the relay's answer to the publish
    /// attempt and says what to do next. When the attempt is over, the cycle
    /// turns to the next item; a failed attempt is counted and not retried.
    pub fn publish(self, event: Event, created_at: u64) -> (r: (App, Action))
        requires
            cycle_inv(self@),
            self@.phase == Phase::Publish,
        ensures
            (r.0@, r.1@) == publish_phase_next(self@, event@, created_at),
            cycle_inv(r.0@),
    {
        assert(self@.items.len() == self.items.len());
        let App {
            channel_key,
            relays,
            phase,
            identity,
            items,
            cursor,
            publisher,
            failure,
            published,
            failed,
            last_error,
        } = self;
        let current = publisher.unwrap();
        let (next, action) = current.step_at(event, created_at);
        match next.result() {
            Some(outcome) => {
                let emitted = outcome.is_ok();
                let counted = App {
                    channel_key,
                    relays,
                    phase,
                    identity,
                    items,
                    cursor: cursor + 1,
                    publisher: None,
                    failure,
                    published: if emitted {
                        published + 1
                    } else {
                        published
                    },
                    failed: if emitted {
                        failed
                    } else {
                        failed + 1
                    },
                    last_error: match outcome {
                        Ok(()) => last_error,
                        Err(e) => Some(Error::from_publish(e)),
                    },
                };
                counted.advance()
            },
            None => (
                App {
                    channel_key,
                    relays,
                    phase,
                    identity,
                    items,
                    cursor,
                    publisher: Some(next),
                    failure,
                    published,
                    failed,
                    last_error,
                },
                action,
            ),
        }
    }

    /// Takes the answer to the last request and says what to do next, for a
    /// given key pair and a given creation time.
    pub fn step_with(self, event: Event, keys: MyKey, created_at: u64) -> (r: (App, Action))
        requires
            cycle_inv(self@),
        ensures
            (r.0@, r.1@) == cycle_next(self@, event@, keys@, created_at),
            cycle_inv(r.0@),
    {
        match self.phase {
            Phase::CheckIdentity | Phase::AwaitMetadata | Phase::StoreIdentity => self.check_user(
                event,
                keys,
            ),
            Phase::FetchItems | Phase::DedupCheck | Phase::Record => self.get_contents(event),
            Phase::Publish => self.publish(event, created_at),
            Phase::CycleDone => (self, Action::Finish),
        }
    }

    /// Takes the answer to the last request and says what to do next. Where
    /// the step mints an identity its keys are generated now; where it
    /// requests a note the creation time is jittered now.
    pub fn step(self, event: Event) -> (r: (App, Action))
        requires
            cycle_inv(self@),
        ensures
            exists|keys: MyKeyView, created_at: u64|
                (r.0@, r.1@) == cycle_next(self@, event@, keys, created_at),
            cycle_inv(r.0@),
    {
        let mints = match (self.phase, &event) {
            (Phase::AwaitMetadata, Event::Metadata(Ok(_))) => true,
            _ => false,
        };
        let keys = if mints {
            match new_key() {
                Ok(keys) => keys,
                Err(e) => {
                    return self.abort_unresolved(e);
                },
            }
        } else {
            MyKey { public_key: String::new(), secret_key: String::new() }
        };
        let created_at: u64 = match self.phase {
            Phase::Publish => custom_created_at(),
            _ => 0,
        };
        let ghost before = self@;
        let ghost answer = event@;
        let ghost used = keys@;
        let r = self.step_with(event, keys, created_at);
        assert((r.0@, r.1@) == cycle_next(before, answer, used, created_at));
        r
    }
}

/// The cycles of all tracked channels, side by side. A step touches the
/// cycle of one channel and no other.
#[derive(Debug)]
pub struct Orchestrator {
    cycles: Vec<App>,
}

impl View for Orchestrator {
    type V = Seq<AppView>;

    closed spec fn view(&self) -> Seq<AppView> {
        self.cycles@.map_values(|cycle: App| cycle@)
    }
}

/// Every cycle is well formed.
pub open spec fn cycles_inv(cycles: Seq<AppView>) -> bool {
    forall|i: int| 0 <= i < cycles.len() ==> cycle_inv(#[trigger] cycles[i])
}

/// Every cycle is over.
pub open spec fn cycles_done(cycles: Seq<AppView>) -> bool {
    forall|i: int| 0 <= i < cycles.len() ==> (#[trigger] cycles[i]).phase == Phase::CycleDone
}

impl Orchestrator {
    /// Starts one cycle for each channel. The requests come in the order of
    /// the channels: for each the lookup of its identity.
    pub fn new(channels: &Vec<String>, relays: &Vec<String>) -> (r: (Orchestrator, Vec<Action>))
        ensures
            r.0@.len() == channels.len(),
            r.1.len() == channels.len(),
            forall|i: int|
                0 <= i < channels.len() ==> (#[trigger] r.0@[i], r.1[i]@) == cycle_start(
                    channels[i]@,
                    texts(relays@),
                ),
            cycles_inv(r.0@),
    {
        let mut cycles: Vec<App> = Vec::new();
        let mut actions: Vec<Action> = Vec::new();
        let mut i: usize = 0;
        while i < channels.len()
            invariant
                i <= channels.len(),
                cycles.len() == i,
                actions.len() == i,
                forall|j: int|
                    0 <= j < i ==> (#[trigger] cycles[j]@, actions[j]@) == cycle_start(
                        channels[j]@,
                        texts(relays@),
                    ),
                forall|j: int| 0 <= j < i ==> cycle_inv(#[trigger] cycles[j]@),
            decreases channels.len() - i,
        {
            let (cycle, action) = App::new(channels[i].as_str(), relays);
            cycles.push(cycle);
            actions.push(action);
            i += 1;
        }
        (Orchestrator { cycles }, actions)
    }

    /// The number of channels.
    pub fn len(&self) -> (n: usize)
        ensures
            n == self@.len(),
    {
        self.cycles.len()
    }

    /// Whether every channel's cycle is over.
    pub fn is_done(&self) -> (b: bool)
        ensures
            b == cycles_done(self@),
    {
        let mut i: usize = 0;
        while i < self.cycles.len()
            invariant
                i <= self.cycles.len(),
                forall|j: int| 0 <= j < i ==> (#[trigger] self@[j]).phase == Phase::CycleDone,
            decreases self.cycles.len() - i,
        {
            if !self.cycles[i].is_done() {
                assert(self@[i as int].phase != Phase::CycleDone);
                return false;
            }
            i += 1;
        }
        true
    }

    /// The cycle of the channel at `index`, if there is such a channel.
    pub fn cycle(&self, index: usize) -> (r: Option<&App>)
        ensures
            match r {
                Some(cycle) => index < self@.len() && cycle@ == self@[index as int],
                None => index >= self@.len(),
            },
    {
        if index < self.cycles.len() {
            Some(&self.cycles[index])
        } else {
            None
        }
    }

    /// Why the cycle of the channel at `index` was given up, if it was.
    pub fn failure(&self, index: usize) -> (e: Option<Error>)
        ensures
            index < self@.len() ==> e == self@[index as int].failure,
            index >= self@.len() ==> e is None,
    {
        if index < self.cycles.len() {
            self.cycles[index].failure()
        } else {
            None
        }
    }

    /// Hands the answer to the channel at `index` and says what to do next
    /// for that channel, for a given key pair and a given creation time. The
    /// cycles of all other channels stay exactly as they are, whatever the
    /// answer was. Without such a channel nothing happens.
    pub fn step_with(&mut self, index: usize, event: Event, keys: MyKey, created_at: u64) -> (action:
        Action)
        requires
            cycles_inv(old(self)@),
        ensures
            cycles_inv(final(self)@),
            final(self)@.len() == old(self)@.len(),
            forall|j: int|
                0 <= j < old(self)@.len() && j != index ==> final(self)@[j] == old(self)@[j],
            index < old(self)@.len() ==> (final(self)@[index as int], action@) == cycle_next(
                old(self)@[index as int],
                event@,
                keys@,
                created_at,
            ),
            index >= old(self)@.len() ==> action@ == ActionView::Finish,
    {
        if index >= self.cycles.len() {
            return Action::Finish;
        }
        let ghost before = self@;
        assert(cycle_inv(before[index as int]));
        let cycle = self.cycles.remove(index);
        let (next, action) = cycle.step_with(event, keys, created_at);
        self.cycles.insert(index, next);
        assert(self@ =~= before.update(index as int, next@));
        action
    }

    /// Hands the answer to the channel at `index` and says what to do next
    /// for that channel. The cycles of all other channels stay exactly as
    /// they are, whatever the answer was. Without such a channel nothing
    /// happens.
    pub fn step(&mut self, index: usize, event: Event) -> (action: Action)
        requires
            cycles_inv(old(self)@),
        ensures
            cycles_inv(final(self)@),
            final(self)@.len() == old(self)@.len(),
            forall|j: int|
                0 <= j < old(self)@.len() && j != index ==> final(self)@[j] == old(self)@[j],
            index < old(self)@.len() ==> exists|keys: MyKeyView, created_at: u64|
                (final(self)@[index as int], action@) == cycle_next(
                    old(self)@[index as int],
                    event@,
                    keys,
                    created_at,
                ),
            index >= old(self)@.len() ==> action@ == ActionView::Finish,
    {
        if index >= self.cycles.len() {
            return Action::Finish;
        }
        let ghost before = self@;
        assert(cycle_inv(before[index as int]));
        let cycle = self.cycles.remove(index);
        let (next, action) = cycle.step(event);
        self.cycles.insert(index, next);
        assert(self@ =~= before.update(index as int, next@));
        action
    }
}

} // verus!
