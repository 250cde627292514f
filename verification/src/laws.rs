//! What holds of the core as a whole: the cycle's transitions, run against
//! the stores.

use vstd::prelude::*;
use crate::error::{Error, PublishError, RelayError, StorageError};
use crate::memory::{memory_answer, resolve_identity, resolved, MemoryView};
use crate::model::{ChannelIdentityView, ChannelMetadataView, MyKeyView};
use crate::orchestrator::{cycle_inv, cycle_next, ingested, message_of, AppView, Phase};
use crate::protocol::{ActionView, EventView, FetchError};
use crate::publish::{
    publish_next, publish_result, publish_start, NotePublisherView, PublishJobView, Stage,
};
use crate::store::identity_put;

verus! {

/// Identity creation is idempotent: when the identity of a channel has been
/// resolved, resolving it again returns the very same identity, key pair
/// included, and leaves the stores as they were, whatever the upstream
/// answers and whichever keys are on offer the second time.
pub proof fn lemma_resolve_identity_twice(
    m: MemoryView,
    channel_key: Seq<char>,
    relays: Seq<Seq<char>>,
    first_fetched: Result<ChannelMetadataView, FetchError>,
    first_keys: MyKeyView,
    second_fetched: Result<ChannelMetadataView, FetchError>,
    second_keys: MyKeyView,
)
    ensures
        ({
            let (m1, s1) = resolve_identity(m, channel_key, relays, first_fetched, first_keys);
            let (m2, s2) = resolve_identity(m1, channel_key, relays, second_fetched, second_keys);
            resolved(s1) is Ok ==> {
                &&& resolved(s2) == resolved(s1)
                &&& m2 == m1
                &&& m1.identities.contains_key(channel_key)
            }
        }),
{
}

/// A resolution that succeeds returns what the store holds for the channel:
/// the record that was there, or the one minted from the metadata and the keys.
pub proof fn lemma_resolve_identity_result(
    m: MemoryView,
    channel_key: Seq<char>,
    relays: Seq<Seq<char>>,
    fetched: Result<ChannelMetadataView, FetchError>,
    keys: MyKeyView,
)
    ensures
        ({
            let (m1, s1) = resolve_identity(m, channel_key, relays, fetched, keys);
            &&& m.identities.contains_key(channel_key) ==> resolved(s1) == Ok::<
                ChannelIdentityView,
                Error,
            >(m.identities[channel_key]) && m1 == m
            &&& !m.identities.contains_key(channel_key) && fetched is Ok ==> resolved(s1) == Ok::<
                ChannelIdentityView,
                Error,
            >(crate::model::minted(channel_key, fetched->Ok_0, keys)) && m1.identities
                == m.identities.insert(
                channel_key,
                crate::model::minted(channel_key, fetched->Ok_0, keys),
            ) && m1.ledger == m.ledger
        }),
{
}

/// No partial writes: for a channel without an identity whose metadata
/// cannot be fetched, the resolution fails as an upstream failure, and the
/// stores are as they were: they hold no record for the channel.
pub proof fn lemma_failed_fetch_writes_nothing(
    m: MemoryView,
    channel_key: Seq<char>,
    relays: Seq<Seq<char>>,
    failure: FetchError,
    keys: MyKeyView,
)
    requires
        !m.identities.contains_key(channel_key),
    ensures
        ({
            let (m1, s1) = resolve_identity(
                m,
                channel_key,
                relays,
                Err::<ChannelMetadataView, FetchError>(failure),
                keys,
            );
            &&& resolved(s1) == Err::<ChannelIdentityView, Error>(Error::UpstreamFetch)
            &&& s1.phase == Phase::CycleDone
            &&& m1 == m
            &&& !m1.identities.contains_key(channel_key)
        }),
{
}

/// Once an identity is stored, its keys never change: a later `put` for the
/// channel is refused and leaves the record as it is.
pub proof fn lemma_put_never_overwrites(
    store: Map<Seq<char>, ChannelIdentityView>,
    identity: ChannelIdentityView,
    channel_key: Seq<char>,
)
    requires
        store.contains_key(channel_key),
    ensures
        identity_put(store, identity).0.contains_key(channel_key),
        identity_put(store, identity).0[channel_key] == store[channel_key],
        identity.channel_key == channel_key ==> identity_put(store, identity).1 == Err::<
            (),
            StorageError,
        >(StorageError::Duplicate),
{
}

/// The step for the item at the cursor, run against the stores: the ledger
/// answers the check, and the record request if one follows. Gives the
/// stores and the cycle afterwards, and the request that is then open.
pub open spec fn item_step(m: MemoryView, s: AppView) -> (MemoryView, AppView, ActionView) {
    let check = ActionView::CheckExists { link: s.items[s.cursor as int].link };
    let keys = MyKeyView { public_key: Seq::empty(), secret_key: Seq::empty() };
    let (m1, known) = memory_answer(m, check);
    let (s1, a1) = cycle_next(s, known->0, keys, 0);
    if a1 is Record {
        let (m2, recorded) = memory_answer(m1, a1);
        let (s2, a2) = cycle_next(s1, recorded->0, keys, 0);
        (m2, s2, a2)
    } else {
        (m1, s1, a1)
    }
}

/// Silent skip: for an item whose link the ledger already holds, the step
/// writes nothing to the stores, starts no publish attempt and counts
/// nothing; the cycle just turns to the next item, or is done.
pub proof fn lemma_known_item_is_skipped(m: MemoryView, s: AppView)
    requires
        cycle_inv(s),
        s.phase == Phase::DedupCheck,
        m.ledger.contains_key(s.items[s.cursor as int].link),
    ensures
        ({
            let (m1, s1, a1) = item_step(m, s);
            &&& m1 == m
            &&& s1.publisher is None
            &&& s1.cursor == s.cursor + 1
            &&& s1.published == s.published
            &&& s1.failed == s.failed
            &&& s1.failure is None
            &&& if s.cursor + 1 < s.items.len() {
                s1.phase == Phase::DedupCheck && a1 == (ActionView::CheckExists {
                    link: s.items[(s.cursor + 1) as int].link,
                })
            } else {
                s1.phase == Phase::CycleDone && a1 == ActionView::Finish
            }
        }),
{
}

/// A new item is recorded before anything is published: the ledger then
/// holds its record, the identity store is untouched, and, the identity's
/// secret key being readable, the request that is open is to connect for the
/// item's note.
pub proof fn lemma_new_item_is_recorded_then_published(m: MemoryView, s: AppView)
    requires
        cycle_inv(s),
        s.phase == Phase::DedupCheck,
        !m.ledger.contains_key(s.items[s.cursor as int].link),
        crate::keys::secret_key_parses((s.identity->0).private_key),
    ensures
        ({
            let (m1, s1, a1) = item_step(m, s);
            let item = s.items[s.cursor as int];
            &&& m1.ledger == m.ledger.insert(item.link, ingested(s.channel_key, item))
            &&& m1.identities == m.identities
            &&& s1.phase == Phase::Publish
            &&& s1.cursor == s.cursor
            &&& s1.publisher is Some
            &&& s1.publisher->0.job.message == message_of(item)
            &&& s1.publisher->0.job.identity == s.identity->0
            &&& a1 == (ActionView::Connect {
                relays: s.relays,
                private_key: (s.identity->0).private_key,
            })
        }),
{
}

/// The order within a cycle: an identity is stored only on metadata that
/// arrived, an item is recorded only on the ledger's word that it is new, a
/// publish attempt starts only on a record that succeeded, and the relays
/// are touched only while an item is being published.
pub proof fn lemma_order_of_requests(
    s: AppView,
    event: EventView,
    keys: MyKeyView,
    created_at: u64,
)
    requires
        cycle_inv(s),
    ensures
        ({
            let (s1, a1) = cycle_next(s, event, keys, created_at);
            &&& a1 is StoreIdentity ==> s.phase == Phase::AwaitMetadata && event is Metadata
                && event->Metadata_0 is Ok
            &&& a1 is Record ==> s.phase == Phase::DedupCheck && event == EventView::Exists(
                Ok(false),
            )
            &&& a1 is Connect ==> s.phase == Phase::Record && event is Recorded
                && event->Recorded_0 is Ok
            &&& (a1 is SetProfile || a1 is Publish || a1 is Disconnect) ==> s.phase
                == Phase::Publish
            &&& (a1 is LookupIdentity || a1 is FetchMetadata || a1 is FetchItems) ==> (s.phase
                == Phase::CheckIdentity || s.phase == Phase::StoreIdentity)
        }),
{
}

/// An item that was dealt with is never taken up again: while items are
/// worked on the cursor does not go back, and the counts do not shrink.
pub proof fn lemma_no_retry(s: AppView, event: EventView, keys: MyKeyView, created_at: u64)
    requires
        cycle_inv(s),
        s.phase == Phase::DedupCheck || s.phase == Phase::Record || s.phase == Phase::Publish,
    ensures
        ({
            let (s1, a1) = cycle_next(s, event, keys, created_at);
            &&& s1.cursor >= s.cursor
            &&& s1.items == s.items
            &&& s1.published >= s.published
            &&& s1.failed >= s.failed
            &&& s1.identity == s.identity
            &&& a1 matches ActionView::CheckExists { link } ==> s1.cursor == s.cursor + 1 && link
                == s.items[(s.cursor + 1) as int].link
        }),
{
}

/// A failure stays within the cycle it happened in: whatever answer arrives,
/// the step ends in a cycle that is well formed again, and a cycle that is
/// done stays done and asks for nothing more.
pub proof fn lemma_cycle_stays_well_formed(
    s: AppView,
    event: EventView,
    keys: MyKeyView,
    created_at: u64,
)
    requires
        cycle_inv(s),
    ensures
        cycle_inv(cycle_next(s, event, keys, created_at).0),
        s.phase == Phase::CycleDone ==> cycle_next(s, event, keys, created_at) == (
            s,
            ActionView::Finish,
        ),
        cycle_next(s, event, keys, created_at).1 == ActionView::Finish <==> cycle_next(
            s,
            event,
            keys,
            created_at,
        ).0.phase == Phase::CycleDone,
{
}

/// A whole publish attempt: the relays answer the connect request with
/// `sessions`, the profile request (if one is made) with `profile`, the note
/// with `emit` and the teardown with `disconnect`.
pub open spec fn publish_run(
    job: PublishJobView,
    sessions: usize,
    profile: Result<(), RelayError>,
    emit: Result<(), RelayError>,
    disconnect: Result<(), RelayError>,
    created_at: u64,
) -> NotePublisherView {
    let (p0, a0) = publish_start(job);
    let (p1, a1) = publish_next(p0, EventView::Connected(sessions), created_at);
    let (p2, a2) = if a1 is SetProfile {
        publish_next(p1, EventView::ProfileSet(profile), created_at)
    } else {
        (p1, a1)
    };
    let (p3, a3) = publish_next(p2, EventView::Published(emit), created_at);
    let (p4, a4) = publish_next(p3, EventView::Disconnected(disconnect), created_at);
    p4
}

/// Only the emit step decides: a publish attempt succeeds exactly if the
/// note was emitted, however many relays could be connected, whether or not
/// the profile was synced, and however the teardown went.
pub proof fn lemma_publish_succeeds_iff_emitted(
    job: PublishJobView,
    sessions: usize,
    profile: Result<(), RelayError>,
    emit: Result<(), RelayError>,
    disconnect: Result<(), RelayError>,
    created_at: u64,
)
    ensures
        publish_result(publish_run(job, sessions, profile, emit, disconnect, created_at)) == Some(
            if emit is Ok {
                Ok::<(), PublishError>(())
            } else {
                Err::<(), PublishError>(PublishError::Emit)
            },
        ),
{
}

/// The note that an attempt asks to publish carries the job's message and
/// the creation time it was given, and it is asked for after the connect
/// step and, where a profile was pushed, after the profile step.
pub proof fn lemma_publish_requests_the_note(
    p: NotePublisherView,
    event: EventView,
    created_at: u64,
)
    ensures
        publish_next(p, event, created_at).1 is Publish ==> {
            &&& publish_next(p, event, created_at).1->note.content == p.job.message
            &&& publish_next(p, event, created_at).1->note.created_at == created_at
            &&& (p.stage == Stage::Connecting || p.stage == Stage::SyncingProfile)
        },
{
}

/// How much of a cycle is left while items are worked on: eight for every
/// item that is not dealt with, less what the current item has behind it.
pub open spec fn items_left(s: AppView) -> int {
    let open_items = 8 * (s.items.len() - s.cursor);
    match s.phase {
        Phase::DedupCheck => open_items,
        Phase::Record => open_items - 1,
        Phase::Publish => open_items - 2 - stage_rank((s.publisher->0).stage),
        _ => 0,
    }
}

/// How far the identity of a cycle has come.
pub open spec fn phase_rank(phase: Phase) -> int {
    match phase {
        Phase::CheckIdentity => 0,
        Phase::AwaitMetadata => 1,
        Phase::StoreIdentity => 2,
        Phase::FetchItems => 3,
        Phase::DedupCheck | Phase::Record | Phase::Publish => 4,
        Phase::CycleDone => 5,
    }
}

/// Every cycle ends: each answer moves the identity phases forward, and
/// while items are worked on each answer leaves strictly less to do. So a
/// cycle is done after four answers and eight for each listed item at most,
/// whatever the answers are.
pub proof fn lemma_cycle_terminates(
    s: AppView,
    event: EventView,
    keys: MyKeyView,
    created_at: u64,
)
    requires
        cycle_inv(s),
        s.phase != Phase::CycleDone,
    ensures
        ({
            let s1 = cycle_next(s, event, keys, created_at).0;
            &&& phase_rank(s1.phase) >= phase_rank(s.phase)
            &&& phase_rank(s.phase) < 4 ==> phase_rank(s1.phase) > phase_rank(s.phase)
            &&& phase_rank(s.phase) == 4 ==> 0 <= items_left(s1) < items_left(s)
            &&& phase_rank(s1.phase) == 4 && phase_rank(s.phase) < 4 ==> items_left(s1) == 8
                * s1.items.len()
        }),
{
}

/// How far an attempt has come.
pub open spec fn stage_rank(stage: Stage) -> int {
    match stage {
        Stage::Connecting => 0,
        Stage::SyncingProfile => 1,
        Stage::Emitting => 2,
        Stage::Disconnecting => 3,
        Stage::Done => 4,
    }
}

/// Clean teardown: every step moves an attempt forward; it is done only
/// after the teardown was requested, and the teardown is requested with
/// every step that enters it. So every attempt is over after five answers
/// at most, and none ends without a request to disconnect.
pub proof fn lemma_publish_always_tears_down(
    p: NotePublisherView,
    event: EventView,
    created_at: u64,
)
    ensures
        p.stage != Stage::Done ==> stage_rank(publish_next(p, event, created_at).0.stage)
            > stage_rank(p.stage),
        p.stage != Stage::Done && publish_next(p, event, created_at).0.stage == Stage::Done
            ==> p.stage == Stage::Disconnecting,
        publish_next(p, event, created_at).0.stage == Stage::Disconnecting ==> publish_next(
            p,
            event,
            created_at,
        ).1 == ActionView::Disconnect,
        publish_next(p, event, created_at).0.job == p.job,
{
}

} // verus!
