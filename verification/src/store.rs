//! The two durable collections of the core, held in memory: the identity
//! store, keyed by channel, and the ingestion ledger, keyed by link.

use vstd::prelude::*;
use crate::error::StorageError;
use crate::model::{ChannelIdentity, ChannelIdentityView, IngestedItem, IngestedItemView};

verus! {

/// One identity record per channel.
pub struct IdentityStore {
    records: Vec<ChannelIdentity>,
}

/// The ledger of accepted items: one record per link.
pub struct IngestionLedger {
    items: Vec<IngestedItem>,
}

impl IdentityStore {
    /// Some position at which `key` is stored.
    pub closed spec fn position(&self, key: Seq<char>) -> int {
        choose|i: int| 0 <= i < self.records.len() && self.records[i].channel_key@ == key
    }

    /// `key` is stored at some position.
    pub closed spec fn stores(&self, key: Seq<char>) -> bool {
        exists|i: int| 0 <= i < self.records.len() && self.records[i].channel_key@ == key
    }

    /// No channel is stored twice.
    pub closed spec fn wf(&self) -> bool {
        forall|i: int, j: int|
            0 <= i < j < self.records.len() ==> self.records[i].channel_key@
                != self.records[j].channel_key@
    }

    /// In a well-formed store the position of a stored channel is the one it was found at.
    proof fn lemma_found_at(&self, i: int)
        requires
            self.wf(),
            0 <= i < self.records.len(),
        ensures
            self.stores(self.records[i].channel_key@),
            self.position(self.records[i].channel_key@) == i,
            self@.contains_key(self.records[i].channel_key@),
            self@[self.records[i].channel_key@] == self.records[i]@,
    {
        let k = self.records[i].channel_key@;
        assert(self.stores(k));
        let p = self.position(k);
        assert(p == i) by {
            if p < i {
                assert(self.records[p].channel_key@ != self.records[i].channel_key@);
            }
            if i < p {
                assert(self.records[i].channel_key@ != self.records[p].channel_key@);
            }
        }
    }

    /// Every record is stored under its own channel: no channel has two records.
    pub proof fn lemma_keyed_by_channel(&self)
        requires
            self.wf(),
        ensures
            forall|k: Seq<char>| self@.contains_key(k) ==> (#[trigger] self@[k]).channel_key == k,
    {
    }

    /// An empty store.
    pub fn new() -> (s: IdentityStore)
        ensures
            s.wf(),
            s@ == Map::<Seq<char>, ChannelIdentityView>::empty(),
    {
        let s = IdentityStore { records: Vec::new() };
        assert(s@ =~= Map::<Seq<char>, ChannelIdentityView>::empty());
        s
    }

    /// The number of identities held.
    pub fn len(&self) -> (n: usize)
        requires
            self.wf(),
        ensures
            n == self@.dom().len(),
            self@.dom().finite(),
    {
        proof {
            self.lemma_domain_size(self.records.len() as int);
            assert(self.prefix_domain(self.records.len() as int) =~= self@.dom());
        }
        self.records.len()
    }

    /// The channels stored at positions below `n`.
    closed spec fn prefix_domain(&self, n: int) -> Set<Seq<char>> {
        Set::new(|k: Seq<char>| exists|i: int| 0 <= i < n && self.records[i].channel_key@ == k)
    }

    proof fn lemma_domain_size(&self, n: int)
        requires
            self.wf(),
            0 <= n <= self.records.len(),
        ensures
            self.prefix_domain(n).finite(),
            self.prefix_domain(n).len() == n,
        decreases n,
    {
        if n == 0 {
            assert(self.prefix_domain(0) =~= Set::<Seq<char>>::empty());
        } else {
            self.lemma_domain_size(n - 1);
            let k = self.records[n - 1].channel_key@;
            assert(!self.prefix_domain(n - 1).contains(k));
            assert(self.prefix_domain(n) =~= self.prefix_domain(n - 1).insert(k));
        }
    }

    /// Reads the identity of `channel_key`, if there is one.
    pub fn get(&self, channel_key: &str) -> (r: Option<ChannelIdentity>)
        requires
            self.wf(),
        ensures
            match r {
                Some(identity) => identity_get(self@, channel_key@) == Some(identity@)
                    && identity@.channel_key == channel_key@,
                None => identity_get(self@, channel_key@) is None,
            },
    {
        let key = channel_key.to_owned();
        let mut i: usize = 0;
        while i < self.records.len()
            invariant
                self.wf(),
                i <= self.records.len(),
                key@ == channel_key@,
                forall|j: int| 0 <= j < i ==> self.records[j].channel_key@ != key@,
            decreases self.records.len() - i,
        {
            if self.records[i].channel_key == key {
                proof {
                    self.lemma_found_at(i as int);
                }
                return Some(self.records[i].clone());
            }
            i += 1;
        }
        None
    }

    /// Whether `channel_key` has an identity.
    pub fn contains(&self, channel_key: &str) -> (b: bool)
        requires
            self.wf(),
        ensures
            b == self@.contains_key(channel_key@),
    {
        self.get(channel_key).is_some()
    }

    /// Adds the identity of a channel that has none. A channel that has one
    /// keeps it: the store is left as it was and `Duplicate` is returned.
    pub fn put(&mut self, identity: ChannelIdentity) -> (r: Result<(), StorageError>)
        requires
            old(self).wf(),
        ensures
            final(self).wf(),
            (final(self)@, r) == identity_put(old(self)@, identity@),
    {
        if self.contains(identity.channel_key.as_str()) {
            return Err(StorageError::Duplicate);
        }
        let ghost before = *self;
        let ghost key = identity@.channel_key;
        let ghost added = identity@;
        self.records.push(identity);
        proof {
            let n = before.records.len() as int;
            assert(self.records[n]@ == added);
            assert forall|k: Seq<char>| self.stores(k) <==> (before.stores(k) || k == key) by {
                if before.stores(k) {
                    let i = before.position(k);
                    assert(self.records[i].channel_key@ == k);
                }
                if k == key {
                    assert(self.records[n].channel_key@ == k);
                }
            }
            assert forall|k: Seq<char>| self.stores(k) implies #[trigger] self@[k]
                == before@.insert(key, added)[k] by {
                let p = self.position(k);
                if k == key {
                    if p < n {
                        assert(before.records[p].channel_key@ == k);
                        assert(before.stores(k));
                    }
                } else {
                    self.lemma_found_at(p);
                    before.lemma_found_at(p);
                }
            }
            assert(self@ =~= before@.insert(key, added));
        }
        Ok(())
    }

    /// Fills in the avatar of `channel_key` where none is recorded yet. An
    /// avatar that is already set, and every other field, stays as it is.
    pub fn add_avatar(&mut self, channel_key: &str, avatar_url: &str) -> (changed: bool)
        requires
            old(self).wf(),
        ensures
            final(self).wf(),
            changed == (old(self)@.contains_key(channel_key@) && old(
                self,
            )@[channel_key@].avatar_url.len() == 0),
            changed ==> final(self)@ == old(self)@.insert(
                channel_key@,
                ChannelIdentityView { avatar_url: avatar_url@, ..old(self)@[channel_key@] },
            ),
            !changed ==> final(self)@ == old(self)@,
    {
        let key = channel_key.to_owned();
        let mut i: usize = 0;
        while i < self.records.len()
            invariant
                self.wf(),
                i <= self.records.len(),
                key@ == channel_key@,
                *self == *old(self),
                forall|j: int| 0 <= j < i ==> self.records[j].channel_key@ != key@,
            decreases self.records.len() - i,
        {
            if self.records[i].channel_key == key {
                proof {
                    self.lemma_found_at(i as int);
                }
                if self.records[i].avatar_url.as_str().is_empty() {
                    let ghost before = *self;
                    let mut updated = self.records[i].clone();
                    updated.avatar_url = avatar_url.to_owned();
                    let ghost added = updated@;
                    self.records.set(i, updated);
                    proof {
                        assert forall|k: Seq<char>| self.stores(k) <==> before.stores(k) by {
                            if before.stores(k) {
                                let p = before.position(k);
                                assert(self.records[p].channel_key@ == k);
                            }
                            if self.stores(k) {
                                let p = self.position(k);
                                assert(before.records[p].channel_key@ == k);
                            }
                        }
                        assert forall|k: Seq<char>| self.stores(k) implies #[trigger] self@[k]
                            == before@.insert(key@, added)[k] by {
                            let p = self.position(k);
                            self.lemma_found_at(p);
                            before.lemma_found_at(p);
                        }
                        assert(self@ =~= before@.insert(key@, added));
                    }
                    return true;
                }
                return false;
            }
            i += 1;
        }
        false
    }
}

impl View for IdentityStore {
    type V = Map<Seq<char>, ChannelIdentityView>;

    closed spec fn view(&self) -> Map<Seq<char>, ChannelIdentityView> {
        Map::new(|k: Seq<char>| self.stores(k), |k: Seq<char>| self.records[self.position(k)]@)
    }
}

impl IngestionLedger {
    /// Some position at which `link` is recorded.
    pub closed spec fn position(&self, link: Seq<char>) -> int {
        choose|i: int| 0 <= i < self.items.len() && self.items[i].link@ == link
    }

    /// `link` is recorded at some position.
    pub closed spec fn records(&self, link: Seq<char>) -> bool {
        exists|i: int| 0 <= i < self.items.len() && self.items[i].link@ == link
    }

    /// No link is recorded twice.
    pub closed spec fn wf(&self) -> bool {
        forall|i: int, j: int|
            0 <= i < j < self.items.len() ==> self.items[i].link@ != self.items[j].link@
    }

    /// In a well-formed ledger the position of a recorded link is the one it was found at.
    proof fn lemma_found_at(&self, i: int)
        requires
            self.wf(),
            0 <= i < self.items.len(),
        ensures
            self.records(self.items[i].link@),
            self.position(self.items[i].link@) == i,
            self@.contains_key(self.items[i].link@),
            self@[self.items[i].link@] == self.items[i]@,
    {
        let k = self.items[i].link@;
        assert(self.records(k));
        let p = self.position(k);
        assert(p == i) by {
            if p < i {
                assert(self.items[p].link@ != self.items[i].link@);
            }
            if i < p {
                assert(self.items[i].link@ != self.items[p].link@);
            }
        }
    }

    /// Every record is held under its own link: no link has two records.
    pub proof fn lemma_keyed_by_link(&self)
        requires
            self.wf(),
        ensures
            forall|k: Seq<char>| self@.contains_key(k) ==> (#[trigger] self@[k]).link == k,
    {
    }

    /// An empty ledger.
    pub fn new() -> (s: IngestionLedger)
        ensures
            s.wf(),
            s@ == Map::<Seq<char>, IngestedItemView>::empty(),
    {
        let s = IngestionLedger { items: Vec::new() };
        assert(s@ =~= Map::<Seq<char>, IngestedItemView>::empty());
        s
    }

    /// The links recorded at positions below `n`.
    closed spec fn prefix_domain(&self, n: int) -> Set<Seq<char>> {
        Set::new(|k: Seq<char>| exists|i: int| 0 <= i < n && self.items[i].link@ == k)
    }

    proof fn lemma_domain_size(&self, n: int)
        requires
            self.wf(),
            0 <= n <= self.items.len(),
        ensures
            self.prefix_domain(n).finite(),
            self.prefix_domain(n).len() == n,
        decreases n,
    {
        if n == 0 {
            assert(self.prefix_domain(0) =~= Set::<Seq<char>>::empty());
        } else {
            self.lemma_domain_size(n - 1);
            let k = self.items[n - 1].link@;
            assert(!self.prefix_domain(n - 1).contains(k));
            assert(self.prefix_domain(n) =~= self.prefix_domain(n - 1).insert(k));
        }
    }

    /// The number of items recorded.
    pub fn len(&self) -> (n: usize)
        requires
            self.wf(),
        ensures
            n == self@.dom().len(),
            self@.dom().finite(),
    {
        proof {
            self.lemma_domain_size(self.items.len() as int);
            assert(self.prefix_domain(self.items.len() as int) =~= self@.dom());
        }
        self.items.len()
    }

    /// Whether an item with this link was recorded. Changes nothing.
    pub fn video_exists(&self, link: &str) -> (b: bool)
        requires
            self.wf(),
        ensures
            b == ledger_exists(self@, link@),
    {
        let key = link.to_owned();
        let mut i: usize = 0;
        while i < self.items.len()
            invariant
                self.wf(),
                i <= self.items.len(),
                key@ == link@,
                forall|j: int| 0 <= j < i ==> self.items[j].link@ != key@,
            decreases self.items.len() - i,
        {
            if self.items[i].link == key {
                proof {
                    self.lemma_found_at(i as int);
                }
                return true;
            }
            i += 1;
        }
        false
    }

    /// Reads the record of `link`, if there is one.
    pub fn get(&self, link: &str) -> (r: Option<IngestedItem>)
        requires
            self.wf(),
        ensures
            match r {
                Some(item) => ledger_exists(self@, link@) && item@ == self@[link@] && item@.link
                    == link@,
                None => !ledger_exists(self@, link@),
            },
    {
        let key = link.to_owned();
        let mut i: usize = 0;
        while i < self.items.len()
            invariant
                self.wf(),
                i <= self.items.len(),
                key@ == link@,
                forall|j: int| 0 <= j < i ==> self.items[j].link@ != key@,
            decreases self.items.len() - i,
        {
            if self.items[i].link == key {
                proof {
                    self.lemma_found_at(i as int);
                }
                return Some(self.items[i].clone());
            }
            i += 1;
        }
        None
    }

    /// Records an item whose link is new. A link that is already recorded
    /// keeps its record: the ledger is left as it was and `Duplicate` is
    /// returned.
    pub fn insert(&mut self, item: IngestedItem) -> (r: Result<(), StorageError>)
        requires
            old(self).wf(),
        ensures
            final(self).wf(),
            (final(self)@, r) == ledger_insert(old(self)@, item@),
    {
        if self.video_exists(item.link.as_str()) {
            return Err(StorageError::Duplicate);
        }
        let ghost before = *self;
        let ghost key = item@.link;
        let ghost added = item@;
        self.items.push(item);
        proof {
            let n = before.items.len() as int;
            assert(self.items[n]@ == added);
            assert forall|k: Seq<char>| self.records(k) <==> (before.records(k) || k == key) by {
                if before.records(k) {
                    let i = before.position(k);
                    assert(self.items[i].link@ == k);
                }
                if k == key {
                    assert(self.items[n].link@ == k);
                }
            }
            assert forall|k: Seq<char>| self.records(k) implies #[trigger] self@[k]
                == before@.insert(key, added)[k] by {
                let p = self.position(k);
                if k == key {
                    if p < n {
                        assert(before.items[p].link@ == k);
                        assert(before.records(k));
                    }
                } else {
                    self.lemma_found_at(p);
                    before.lemma_found_at(p);
                }
            }
            assert(self@ =~= before@.insert(key, added));
        }
        Ok(())
    }

    /// Records one item from its fields; fails with `Duplicate` if and only
    /// if the link is already recorded.
    pub fn record(
        &mut self,
        channel_key: &str,
        author: &str,
        title: &str,
        link: &str,
        published_flag: bool,
    ) -> (r: Result<(), StorageError>)
        requires
            old(self).wf(),
        ensures
            final(self).wf(),
            (final(self)@, r) == ledger_insert(
                old(self)@,
                IngestedItemView {
                    channel_key: channel_key@,
                    title: title@,
                    link: link@,
                    author: author@,
                    published_flag,
                },
            ),
    {
        let item = IngestedItem {
            channel_key: channel_key.to_owned(),
            title: title.to_owned(),
            link: link.to_owned(),
            author: author.to_owned(),
            published_flag,
        };
        self.insert(item)
    }
}

impl View for IngestionLedger {
    type V = Map<Seq<char>, IngestedItemView>;

    closed spec fn view(&self) -> Map<Seq<char>, IngestedItemView> {
        Map::new(|k: Seq<char>| self.records(k), |k: Seq<char>| self.items[self.position(k)]@)
    }
}

/// Once an insert for a link has succeeded, the link exists in the ledger,
/// and a second insert for it is refused as a duplicate, whatever the rest of
/// the second item says.
pub proof fn lemma_insert_then_exists_then_duplicate(
    ledger: Map<Seq<char>, IngestedItemView>,
    first: IngestedItemView,
    second: IngestedItemView,
)
    requires
        first.link == second.link,
        ledger_insert(ledger, first).1 is Ok,
    ensures
        ledger_exists(ledger_insert(ledger, first).0, first.link),
        ledger_insert(ledger_insert(ledger, first).0, second).1 == Err::<(), StorageError>(
            StorageError::Duplicate,
        ),
        ledger_insert(ledger_insert(ledger, first).0, second).0 == ledger_insert(ledger, first).0,
{
}

/// What `exists` answers on a ledger with these contents.
pub open spec fn ledger_exists(ledger: Map<Seq<char>, IngestedItemView>, link: Seq<char>) -> bool {
    ledger.contains_key(link)
}

/// The contents after `insert`, and what it returns.
pub open spec fn ledger_insert(ledger: Map<Seq<char>, IngestedItemView>, item: IngestedItemView) -> (
    Map<Seq<char>, IngestedItemView>,
    Result<(), StorageError>,
) {
    if ledger.contains_key(item.link) {
        (ledger, Err(StorageError::Duplicate))
    } else {
        (ledger.insert(item.link, item), Ok(()))
    }
}

/// What `get` answers on an identity store with these contents.
pub open spec fn identity_get(
    store: Map<Seq<char>, ChannelIdentityView>,
    channel_key: Seq<char>,
) -> Option<ChannelIdentityView> {
    if store.contains_key(channel_key) {
        Some(store[channel_key])
    } else {
        None
    }
}

/// The contents after `put`, and what it returns.
pub open spec fn identity_put(
    store: Map<Seq<char>, ChannelIdentityView>,
    identity: ChannelIdentityView,
) -> (Map<Seq<char>, ChannelIdentityView>, Result<(), StorageError>) {
    if store.contains_key(identity.channel_key) {
        (store, Err(StorageError::Duplicate))
    } else {
        (store.insert(identity.channel_key, identity), Ok(()))
    }
}

} // verus!
