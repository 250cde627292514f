//! Both stores in memory, answering the store requests of a cycle.

use vstd::prelude::*;
use crate::error::Error;
use crate::model::{
    ChannelIdentity, ChannelIdentityView, ChannelMetadata, ChannelMetadataView, IngestedItemView,
    MyKey, MyKeyView,
};
use crate::orchestrator::{cycle_next, cycle_start, App, AppView, Phase};
use crate::protocol::{Action, ActionView, Event, EventView, FetchError};
use crate::store::{
    identity_get, identity_put, ledger_exists, ledger_insert, IdentityStore, IngestionLedger,
};

verus! {

/// The identity store and the ledger, side by side.
pub struct MemoryStore {
    pub identities: IdentityStore,
    pub ledger: IngestionLedger,
}

/// Mathematical view of a [`MemoryStore`].
pub struct MemoryView {
    pub identities: Map<Seq<char>, ChannelIdentityView>,
    pub ledger: Map<Seq<char>, IngestedItemView>,
}

impl View for MemoryStore {
    type V = MemoryView;

    open spec fn view(&self) -> MemoryView {
        MemoryView { identities: self.identities@, ledger: self.ledger@ }
    }
}

/// What the stores answer to a request, and what they hold afterwards. A
/// request that is not for the stores gets no answer and changes nothing.
pub open spec fn memory_answer(m: MemoryView, action: ActionView) -> (MemoryView, Option<EventView>) {
    match action {
        ActionView::LookupIdentity { channel_key } => (
            m,
            Some(EventView::Identity(Ok(identity_get(m.identities, channel_key)))),
        ),
        ActionView::StoreIdentity { identity } => {
            let (identities, r) = identity_put(m.identities, identity);
            (MemoryView { identities, ..m }, Some(EventView::IdentityStored(r)))
        },
        ActionView::CheckExists { link } => (
            m,
            Some(EventView::Exists(Ok(ledger_exists(m.ledger, link)))),
        ),
        ActionView::Record { item } => {
            let (ledger, r) = ledger_insert(m.ledger, item);
            (MemoryView { ledger, ..m }, Some(EventView::Recorded(r)))
        },
        _ => (m, None),
    }
}

/// Resolving the identity of a channel against the stores: the cycle's
/// identity phases, where the stores answer every store request, `fetched`
/// answers the metadata request if one is made, and `keys` is the key pair
/// for an identity that is minted. Gives the stores and the cycle afterwards.
pub open spec fn resolve_identity(
    m: MemoryView,
    channel_key: Seq<char>,
    relays: Seq<Seq<char>>,
    fetched: Result<ChannelMetadataView, FetchError>,
    keys: MyKeyView,
) -> (MemoryView, AppView) {
    let (s0, lookup) = cycle_start(channel_key, relays);
    let (m1, looked) = memory_answer(m, lookup);
    let (s1, a1) = cycle_next(s0, looked->0, keys, 0);
    if a1 is FetchMetadata {
        let (s2, a2) = cycle_next(s1, EventView::Metadata(fetched), keys, 0);
        if a2 is StoreIdentity {
            let (m2, stored) = memory_answer(m1, a2);
            let (s3, a3) = cycle_next(s2, stored->0, keys, 0);
            (m2, s3)
        } else {
            (m1, s2)
        }
    } else {
        (m1, s1)
    }
}

/// What a resolution returned: the identity where it is ready, else the
/// reason why the cycle was given up.
pub open spec fn resolved(s: AppView) -> Result<ChannelIdentityView, Error> {
    if s.phase == Phase::FetchItems && s.identity is Some {
        Ok(s.identity->0)
    } else {
        Err(s.failure->0)
    }
}

/// The view of an answer to the metadata request.
pub open spec fn fetched_view(fetched: Result<ChannelMetadata, FetchError>) -> Result<
    ChannelMetadataView,
    FetchError,
> {
    match fetched {
        Ok(metadata) => Ok(metadata@),
        Err(e) => Err(e),
    }
}

impl MemoryStore {
    /// Both stores are well formed.
    pub open spec fn wf(&self) -> bool {
        self.identities.wf() && self.ledger.wf()
    }

    /// Two empty stores.
    pub fn new() -> (m: MemoryStore)
        ensures
            m.wf(),
            m@.identities == Map::<Seq<char>, ChannelIdentityView>::empty(),
            m@.ledger == Map::<Seq<char>, IngestedItemView>::empty(),
    {
        MemoryStore { identities: IdentityStore::new(), ledger: IngestionLedger::new() }
    }

    /// Performs a request that is for the stores and hands back their answer.
    pub fn answer(&mut self, action: &Action) -> (r: Option<Event>)
        requires
            old(self).wf(),
        ensures
            final(self).wf(),
            match r {
                Some(event) => memory_answer(old(self)@, action@) == (final(self)@, Some(event@)),
                None => memory_answer(old(self)@, action@) == (
                    final(self)@,
                    None::<EventView>,
                ),
            },
    {
        match action {
            Action::LookupIdentity { channel_key } => {
                let found = self.identities.get(channel_key.as_str());
                Some(Event::Identity(Ok(found)))
            },
            Action::StoreIdentity { identity } => {
                let r = self.identities.put(identity.clone());
                Some(Event::IdentityStored(r))
            },
            Action::CheckExists { link } => {
                let known = self.ledger.video_exists(link.as_str());
                Some(Event::Exists(Ok(known)))
            },
            Action::Record { item } => {
                let r = self.ledger.insert(item.clone());
                Some(Event::Recorded(r))
            },
            _ => None,
        }
    }

    /// Resolves the identity of a channel against these stores: returns the
    /// identity that is stored, or mints one from the metadata and the keys
    /// and stores it. `fetched` is what the upstream answers if it is asked
    /// for the channel's metadata; it is looked at only where the channel has
    /// no identity yet. Where that answer is a failure, the resolution fails
    /// and nothing is stored.
    pub fn resolve_identity(
        &mut self,
        channel_key: &str,
        fetched: Result<ChannelMetadata, FetchError>,
        keys: MyKey,
    ) -> (r: Result<ChannelIdentity, Error>)
        requires
            old(self).wf(),
        ensures
            final(self).wf(),
            ({
                let (m, s) = resolve_identity(
                    old(self)@,
                    channel_key@,
                    Seq::empty(),
                    fetched_view(fetched),
                    keys@,
                );
                &&& final(self)@ == m
                &&& match r {
                    Ok(identity) => resolved(s) == Ok::<ChannelIdentityView, Error>(identity@),
                    Err(e) => resolved(s) == Err::<ChannelIdentityView, Error>(e),
                }
            }),
    {
        let relays: Vec<String> = Vec::new();
        assert(crate::protocol::texts(relays@) =~= Seq::empty());
        let (cycle, lookup) = App::new(channel_key, &relays);
        let looked = match self.answer(&lookup) {
            Some(event) => event,
            None => {
                return Err(Error::UnexpectedEvent);
            },
        };
        let (cycle, after_lookup) = cycle.step_with(looked, keys.clone(), 0);
        let cycle = match after_lookup {
            Action::FetchMetadata { .. } => {
                let (cycle, after_fetch) = cycle.step_with(
                    Event::Metadata(fetched),
                    keys.clone(),
                    0,
                );
                match self.answer(&after_fetch) {
                    Some(stored) => match after_fetch {
                        Action::StoreIdentity { .. } => cycle.step_with(stored, keys, 0).0,
                        _ => cycle,
                    },
                    None => cycle,
                }
            },
            _ => cycle,
        };
        match (cycle.phase(), cycle.identity(), cycle.failure()) {
            (Phase::FetchItems, Some(identity), _) => Ok(identity),
            (_, _, Some(e)) => Err(e),
            _ => Err(Error::UnexpectedEvent),
        }
    }
}

} // verus!
