//! The exchange between the core and the outside world: the core asks for
//! outside work with an [`Action`] and is told how it went with an [`Event`].

use vstd::prelude::*;
use crate::error::{RelayError, StorageError};
use crate::model::{
    ChannelIdentity, ChannelIdentityView, ChannelMetadata, ChannelMetadataView, IngestedItem,
    IngestedItemView,
};
use crate::nostr::{NoteDraft, NoteDraftView, Profile, ProfileView};

verus! {

/// One new item as the upstream lists it.
#[derive(Debug)]
pub struct VideoInfo {
    pub title: String,
    pub link: String,
    pub author_name: String,
}

/// Mathematical view of a [`VideoInfo`].
pub struct VideoInfoView {
    pub title: Seq<char>,
    pub link: Seq<char>,
    pub author_name: Seq<char>,
}

impl View for VideoInfo {
    type V = VideoInfoView;

    open spec fn view(&self) -> VideoInfoView {
        VideoInfoView { title: self.title@, link: self.link@, author_name: self.author_name@ }
    }
}

/// The upstream feed or API was unavailable, or what it sent was malformed.
#[derive(Clone, Copy, Debug, PartialEq, Eq, Structural)]
pub enum FetchError {
    Unavailable,
    Malformed,
}

/// The texts that a list of strings holds.
pub open spec fn texts(list: Seq<String>) -> Seq<Seq<char>> {
    list.map_values(|s: String| s@)
}

/// The items that a list of upstream entries holds.
pub open spec fn entries(list: Seq<VideoInfo>) -> Seq<VideoInfoView> {
    list.map_values(|v: VideoInfo| v@)
}

/// A copy of a list of strings.
pub fn clone_texts(list: &Vec<String>) -> (copy: Vec<String>)
    ensures
        texts(copy@) == texts(list@),
{
    let mut copy: Vec<String> = Vec::new();
    let mut i: usize = 0;
    while i < list.len()
        invariant
            i <= list.len(),
            copy.len() == i,
            forall|j: int| 0 <= j < i ==> copy[j]@ == list[j]@,
        decreases list.len() - i,
    {
        copy.push(list[i].clone());
        i += 1;
    }
    assert(texts(copy@) =~= texts(list@));
    copy
}

/// Outside work that the core asks for.
#[derive(Debug)]
pub enum Action {
    /// Read the identity of a channel from the identity store.
    LookupIdentity { channel_key: String },
    /// Ask the upstream for the metadata of a channel.
    FetchMetadata { channel_key: String },
    /// Persist a new identity.
    StoreIdentity { identity: ChannelIdentity },
    /// Ask the upstream for the new items of a channel.
    FetchItems { remote_channel_id: String },
    /// Ask the ledger whether a link was recorded.
    CheckExists { link: String },
    /// Record an item in the ledger.
    Record { item: IngestedItem },
    /// Establish sessions to the relays, signing with this secret key.
    Connect { relays: Vec<String>, private_key: String },
    /// Push the profile document.
    SetProfile { profile: Profile },
    /// Sign the note and broadcast it to the connected relays.
    Publish { note: NoteDraft },
    /// Tear all sessions down.
    Disconnect,
    /// Nothing is left to do.
    Finish,
}

/// Mathematical view of an [`Action`].
pub enum ActionView {
    LookupIdentity { channel_key: Seq<char> },
    FetchMetadata { channel_key: Seq<char> },
    StoreIdentity { identity: ChannelIdentityView },
    FetchItems { remote_channel_id: Seq<char> },
    CheckExists { link: Seq<char> },
    Record { item: IngestedItemView },
    Connect { relays: Seq<Seq<char>>, private_key: Seq<char> },
    SetProfile { profile: ProfileView },
    Publish { note: NoteDraftView },
    Disconnect,
    Finish,
}

impl View for Action {
    type V = ActionView;

    open spec fn view(&self) -> ActionView {
        match self {
            Action::LookupIdentity { channel_key } => ActionView::LookupIdentity {
                channel_key: channel_key@,
            },
            Action::FetchMetadata { channel_key } => ActionView::FetchMetadata {
                channel_key: channel_key@,
            },
            Action::StoreIdentity { identity } => ActionView::StoreIdentity { identity: identity@ },
            Action::FetchItems { remote_channel_id } => ActionView::FetchItems {
                remote_channel_id: remote_channel_id@,
            },
            Action::CheckExists { link } => ActionView::CheckExists { link: link@ },
            Action::Record { item } => ActionView::Record { item: item@ },
            Action::Connect { relays, private_key } => ActionView::Connect {
                relays: texts(relays@),
                private_key: private_key@,
            },
            Action::SetProfile { profile } => ActionView::SetProfile { profile: profile@ },
            Action::Publish { note } => ActionView::Publish { note: note@ },
            Action::Disconnect => ActionView::Disconnect,
            Action::Finish => ActionView::Finish,
        }
    }
}

/// How a piece of outside work went.
#[derive(Debug)]
pub enum Event {
    /// Answer to `LookupIdentity`.
    Identity(Result<Option<ChannelIdentity>, StorageError>),
    /// Answer to `FetchMetadata`.
    Metadata(Result<ChannelMetadata, FetchError>),
    /// Answer to `StoreIdentity`.
    IdentityStored(Result<(), StorageError>),
    /// Answer to `FetchItems`.
    Items(Result<Vec<VideoInfo>, FetchError>),
    /// Answer to `CheckExists`.
    Exists(Result<bool, StorageError>),
    /// Answer to `Record`.
    Recorded(Result<(), StorageError>),
    /// Answer to `Connect`: the number of relays that a session was established to.
    Connected(usize),
    /// Answer to `SetProfile`.
    ProfileSet(Result<(), RelayError>),
    /// Answer to `Publish`.
    Published(Result<(), RelayError>),
    /// Answer to `Disconnect`.
    Disconnected(Result<(), RelayError>),
}

/// Mathematical view of an [`Event`].
pub enum EventView {
    Identity(Result<Option<ChannelIdentityView>, StorageError>),
    Metadata(Result<ChannelMetadataView, FetchError>),
    IdentityStored(Result<(), StorageError>),
    Items(Result<Seq<VideoInfoView>, FetchError>),
    Exists(Result<bool, StorageError>),
    Recorded(Result<(), StorageError>),
    Connected(usize),
    ProfileSet(Result<(), RelayError>),
    Published(Result<(), RelayError>),
    Disconnected(Result<(), RelayError>),
}

impl View for Event {
    type V = EventView;

    open spec fn view(&self) -> EventView {
        match self {
            Event::Identity(Ok(Some(identity))) => EventView::Identity(Ok(Some(identity@))),
            Event::Identity(Ok(None)) => EventView::Identity(Ok(None)),
            Event::Identity(Err(e)) => EventView::Identity(Err(*e)),
            Event::Metadata(Ok(metadata)) => EventView::Metadata(Ok(metadata@)),
            Event::Metadata(Err(e)) => EventView::Metadata(Err(*e)),
            Event::IdentityStored(r) => EventView::IdentityStored(*r),
            Event::Items(Ok(items)) => EventView::Items(Ok(entries(items@))),
            Event::Items(Err(e)) => EventView::Items(Err(*e)),
            Event::Exists(r) => EventView::Exists(*r),
            Event::Recorded(r) => EventView::Recorded(*r),
            Event::Connected(sessions) => EventView::Connected(*sessions),
            Event::ProfileSet(r) => EventView::ProfileSet(*r),
            Event::Published(r) => EventView::Published(*r),
            Event::Disconnected(r) => EventView::Disconnected(*r),
        }
    }
}

} // verus!
