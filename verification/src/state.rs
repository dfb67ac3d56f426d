//! What a node knows: the shared log, its connected peers, the public
//! keys it has seen and the direct messages it has received.

use crdts::GSet;
use vstd::hash_map::StringHashMap;
use vstd::prelude::*;
use crate::shared_log::{
    ascending, empty_log, lemma_listing, log_entries, log_insert, log_items, log_listing,
    log_merge, merged,
};
use crate::text::{clone_strings, text_eq, texts};

verus! {

/// A direct message that was received and decrypted.
#[derive(Clone, Debug, PartialEq, Eq)]
pub struct DmEntry {
    pub from: String,
    pub content: String,
    pub timestamp: u64,
}

/// A direct message as a mathematical value.
pub struct DmEntryView {
    pub from: Seq<char>,
    pub content: Seq<char>,
    pub timestamp: u64,
}

impl View for DmEntry {
    type V = DmEntryView;

    open spec fn view(&self) -> DmEntryView {
        DmEntryView { from: self.from@, content: self.content@, timestamp: self.timestamp }
    }
}

/// The views of a sequence of direct messages, in order.
pub open spec fn dm_views(v: Seq<DmEntry>) -> Seq<DmEntryView> {
    Seq::new(v.len(), |i: int| v[i]@)
}

/// A copy of the node's state for readers outside the node loop.
#[derive(Clone, Debug, PartialEq, Eq)]
pub struct AppStateSnapshot {
    pub peers: Vec<String>,
    pub log: Vec<String>,
    pub dms: Vec<DmEntry>,
    pub local_peer_id: String,
}

/// The state of a node as a mathematical value.
pub struct AppStateView {
    /// The entries of the shared log.
    pub log: Set<Seq<char>>,
    /// The connected peers, in the order in which they connected.
    pub peers: Seq<Seq<char>>,
    /// The public key last seen of each peer that has identified itself.
    pub public_keys: Map<Seq<char>, Seq<u8>>,
    /// The inbox, oldest first.
    pub dms: Seq<DmEntryView>,
    /// This node's own peer id.
    pub local_peer_id: Seq<char>,
}

/// The connected peers: each peer once, in the order in which they
/// connected.
pub struct PeerList {
    items: Vec<String>,
}

impl View for PeerList {
    type V = Seq<Seq<char>>;

    closed spec fn view(&self) -> Seq<Seq<char>> {
        texts(self.items@)
    }
}

/// The state of a node.
pub struct AppState {
    log: GSet<String>,
    peers: PeerList,
    public_keys: StringHashMap<Vec<u8>>,
    dms: Vec<DmEntry>,
    local_peer_id: String,
}

impl View for AppState {
    type V = AppStateView;

    closed spec fn view(&self) -> AppStateView {
        AppStateView {
            log: log_entries(self.log),
            peers: self.peers@,
            public_keys: self.public_keys@.map_values(|k: Vec<u8>| k@),
            dms: dm_views(self.dms@),
            local_peer_id: self.local_peer_id@,
        }
    }
}

/// The test that every peer but `peer` passes.
pub open spec fn is_other(peer: Seq<char>) -> spec_fn(Seq<char>) -> bool {
    |p: Seq<char>| p != peer
}

/// `peers` without `peer`, the others in their order.
pub open spec fn without(peers: Seq<Seq<char>>, peer: Seq<char>) -> Seq<Seq<char>> {
    peers.filter(is_other(peer))
}

/// Taking a peer off a list without repetitions leaves such a list, and
/// the peer is no longer on it.
pub proof fn lemma_without_keeps_distinct(peers: Seq<Seq<char>>, peer: Seq<char>)
    requires
        peers.no_duplicates(),
    ensures
        without(peers, peer).no_duplicates(),
        !without(peers, peer).contains(peer),
    decreases peers.len(),
{
    reveal(Seq::filter);
    let pred = is_other(peer);
    let others = peers.filter(pred);
    assert(!others.contains(peer)) by {
        if others.contains(peer) {
            let k = choose|k: int| 0 <= k < others.len() && others[k] == peer;
            peers.lemma_filter_pred(pred, k);
        }
    }
    if peers.len() > 0 {
        let rest = peers.drop_last();
        let last = peers.last();
        lemma_without_keeps_distinct(rest, peer);
        let kept = rest.filter(pred);
        if pred(last) {
            assert(peers.filter(pred) == kept.push(last));
            assert forall|k: int| 0 <= k < kept.len() implies kept[k] != last by {
                if kept[k] == last {
                    assert(kept.contains(last));
                    rest.lemma_filter_contains_rev(pred, last);
                    let i = choose|i: int| 0 <= i < rest.len() && rest[i] == last;
                    assert(peers[i] == peers[peers.len() - 1]);
                }
            }
        }
    }
}

impl PeerList {
    /// No peer is listed twice.
    #[verifier::type_invariant]
    spec fn distinct(self) -> bool {
        texts(self.items@).no_duplicates()
    }

    /// A list without peers.
    pub fn new() -> (list: Self)
        ensures
            list@ == Seq::<Seq<char>>::empty(),
    {
        let items: Vec<String> = Vec::new();
        assert(texts(items@) =~= Seq::empty());
        PeerList { items }
    }

    /// Whether `peer` is on the list.
    pub fn contains(&self, peer: &str) -> (b: bool)
        ensures
            b == self@.contains(peer@),
    {
        let mut i: usize = 0;
        while i < self.items.len()
            invariant
                i <= self.items.len(),
                forall|k: int| 0 <= k < i ==> self.items[k]@ != peer@,
            decreases self.items.len() - i,
        {
            if text_eq(self.items[i].as_str(), peer) {
                assert(texts(self.items@)[i as int] == peer@);
                return true;
            }
            i += 1;
        }
        false
    }

    /// Puts `peer` at the end of the list, unless it is listed already.
    pub fn insert(&mut self, peer: String)
        ensures
            final(self)@ == if old(self)@.contains(peer@) {
                old(self)@
            } else {
                old(self)@.push(peer@)
            },
            final(self)@.no_duplicates(),
    {
        proof {
            use_type_invariant(&*self);
        }
        if !self.contains(peer.as_str()) {
            let ghost before = texts(self.items@);
            let mut items = clone_strings(&self.items);
            items.push(peer);
            assert(texts(items@) =~= before.push(peer@));
            assert(before.push(peer@).no_duplicates());
            self.items = items;
        }
    }

    /// Takes `peer` off the list; the others keep their order.
    pub fn remove(&mut self, peer: &str)
        ensures
            final(self)@ == without(old(self)@, peer@),
            final(self)@.no_duplicates(),
            !final(self)@.contains(peer@),
    {
        proof {
            use_type_invariant(&*self);
        }
        let ghost before = texts(self.items@);
        let ghost pred = is_other(peer@);
        let mut kept: Vec<String> = Vec::new();
        let mut i: usize = 0;
        while i < self.items.len()
            invariant
                i <= self.items.len(),
                before == texts(self.items@),
                pred == is_other(peer@),
                texts(kept@) == before.take(i as int).filter(pred),
            decreases self.items.len() - i,
        {
            proof {
                reveal(Seq::filter);
                assert(before.take(i + 1).drop_last() =~= before.take(i as int));
                assert(before.take(i + 1).last() == self.items[i as int]@);
            }
            if !text_eq(self.items[i].as_str(), peer) {
                let ghost kept_before = texts(kept@);
                kept.push(self.items[i].clone());
                assert(texts(kept@) =~= kept_before.push(self.items[i as int]@));
            }
            i += 1;
        }
        proof {
            assert(before.take(self.items.len() as int) =~= before);
            lemma_without_keeps_distinct(before, peer@);
        }
        self.items = kept;
    }

    /// The peers as a vector: each once, in the order of the list.
    pub fn to_vec(&self) -> (peers: Vec<String>)
        ensures
            texts(peers@) == self@,
            texts(peers@).no_duplicates(),
    {
        proof {
            use_type_invariant(self);
        }
        clone_strings(&self.items)
    }
}

impl AppState {
    /// The state of a node that has just started: nothing logged, nobody
    /// connected, no key seen, no message received.
    pub fn new(local_peer_id: String) -> (state: Self)
        ensures
            state@ == (AppStateView {
                log: Set::empty(),
                peers: Seq::empty(),
                public_keys: Map::empty(),
                dms: Seq::empty(),
                local_peer_id: local_peer_id@,
            }),
    {
        let state = AppState {
            log: empty_log(),
            peers: PeerList::new(),
            public_keys: StringHashMap::new(),
            dms: Vec::new(),
            local_peer_id,
        };
        assert(state@.dms =~= Seq::empty());
        assert(state@.public_keys =~= Map::empty());
        state
    }

    /// A copy of the state: the peers in the order in which they
    /// connected and each once, the log's entries in ascending order and
    /// each once, the inbox oldest first.
    pub fn snapshot(&self) -> (snap: AppStateSnapshot)
        ensures
            texts(snap.peers@) == self@.peers,
            texts(snap.peers@).no_duplicates(),
            texts(snap.log@) == log_listing(self@.log),
            texts(snap.log@).to_set() == self@.log,
            ascending(texts(snap.log@)),
            dm_views(snap.dms@) == self@.dms,
            snap.local_peer_id@ == self@.local_peer_id,
    {
        let peers = self.peers.to_vec();
        let log = self.entries();
        let mut dms: Vec<DmEntry> = Vec::new();
        let mut i: usize = 0;
        while i < self.dms.len()
            invariant
                i <= self.dms.len(),
                dms.len() == i,
                forall|k: int| 0 <= k < i ==> dms[k]@ == self.dms[k]@,
            decreases self.dms.len() - i,
        {
            let entry = &self.dms[i];
            dms.push(
                DmEntry {
                    from: entry.from.clone(),
                    content: entry.content.clone(),
                    timestamp: entry.timestamp,
                },
            );
            i += 1;
        }
        assert(dm_views(dms@) =~= dm_views(self.dms@));
        AppStateSnapshot { peers, log, dms, local_peer_id: self.local_peer_id.clone() }
    }

    /// This node's own peer id.
    pub fn local_peer_id(&self) -> (id: &String)
        ensures
            id@ == self@.local_peer_id,
    {
        &self.local_peer_id
    }

    /// The entries of the shared log, each once and in ascending order.
    pub fn entries(&self) -> (entries: Vec<String>)
        ensures
            texts(entries@) == log_listing(self@.log),
            texts(entries@).to_set() == self@.log,
            ascending(texts(entries@)),
    {
        let entries = log_items(&self.log);
        proof {
            lemma_listing(texts(entries@), log_entries(self.log));
        }
        entries
    }

    /// The shared log.
    pub fn log(&self) -> (log: &GSet<String>)
        ensures
            log_entries(*log) == self@.log,
    {
        &self.log
    }

    /// Whether `peer` is listed as connected.
    pub fn is_connected(&self, peer: &str) -> (b: bool)
        ensures
            b == self@.peers.contains(peer@),
    {
        self.peers.contains(peer)
    }

    /// Lists `peer` as connected. A peer that is listed already stays
    /// where it is: no peer is listed twice.
    pub fn connect(&mut self, peer: String)
        ensures
            final(self)@ == (AppStateView {
                peers: if old(self)@.peers.contains(peer@) {
                    old(self)@.peers
                } else {
                    old(self)@.peers.push(peer@)
                },
                ..old(self)@
            }),
            final(self)@.peers.no_duplicates(),
    {
        self.peers.insert(peer);
    }

    /// Takes `peer` off the list of connected peers; the others keep
    /// their order.
    pub fn disconnect(&mut self, peer: &str)
        ensures
            final(self)@ == (AppStateView {
                peers: without(old(self)@.peers, peer@),
                ..old(self)@
            }),
            final(self)@.peers.no_duplicates(),
            !final(self)@.peers.contains(peer@),
    {
        self.peers.remove(peer);
    }

    /// Whether a public key of `peer` has been seen.
    pub fn knows_public_key(&self, peer: &str) -> (b: bool)
        ensures
            b == self@.public_keys.contains_key(peer@),
    {
        self.public_keys.contains_key(peer)
    }

    /// Keeps `key` as the public key of `peer`, in place of any earlier
    /// one.
    pub fn record_public_key(&mut self, peer: String, key: Vec<u8>)
        ensures
            final(self)@ == (AppStateView {
                public_keys: old(self)@.public_keys.insert(peer@, key@),
                ..old(self)@
            }),
    {
        self.public_keys.insert(peer, key);
        assert(final(self)@.public_keys =~= old(self)@.public_keys.insert(peer@, key@));
    }

    /// Appends `entry` to the inbox.
    pub fn push_dm(&mut self, entry: DmEntry)
        ensures
            final(self)@ == (AppStateView { dms: old(self)@.dms.push(entry@), ..old(self)@ }),
    {
        let ghost before = dm_views(self.dms@);
        self.dms.push(entry);
        assert(dm_views(self.dms@) =~= before.push(entry@));
    }

    /// Adds `entry` to the shared log.
    pub fn insert_log(&mut self, entry: String)
        ensures
            final(self)@ == (AppStateView { log: old(self)@.log.insert(entry@), ..old(self)@ }),
    {
        log_insert(&mut self.log, entry);
    }

    /// Merges another node's log into the shared log: the union of both.
    pub fn merge_log(&mut self, remote: GSet<String>)
        ensures
            final(self)@ == (AppStateView {
                log: merged(old(self)@.log, log_entries(remote)),
                ..old(self)@
            }),
    {
        log_merge(&mut self.log, remote);
    }
}

} // verus!
