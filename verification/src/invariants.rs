//! What holds of every node, whatever happens to it.
//!
//! The statements are about the spec functions of [`crate::node`], which
//! the methods of `Node` are proved to compute.

use vstd::prelude::*;
use crate::action::NodeActionView;
use crate::dm::PrivateMessageView;
use crate::node::{
    discovered, discovered_one, envelope_received, log_payload_received, logged, stepped,
    with_log, Discovery, NodeEvent, NodeView,
};
use crate::shared_log::{log_wire_decoding, merged};
use crate::state::lemma_without_keeps_distinct;

verus! {

/// Merging the same log a second time changes nothing.
pub proof fn lemma_merge_is_idempotent(x: Set<Seq<char>>, y: Set<Seq<char>>)
    ensures
        merged(merged(x, y), y) == merged(x, y),
        merged(x, x) == x,
{
    assert(merged(merged(x, y), y) =~= merged(x, y));
    assert(merged(x, x) =~= x);
}

/// The order in which two logs are merged does not matter.
pub proof fn lemma_merge_is_commutative(x: Set<Seq<char>>, y: Set<Seq<char>>)
    ensures
        merged(x, y) == merged(y, x),
{
    assert(merged(x, y) =~= merged(y, x));
}

/// How three logs are grouped for merging does not matter.
pub proof fn lemma_merge_is_associative(x: Set<Seq<char>>, y: Set<Seq<char>>, z: Set<Seq<char>>)
    ensures
        merged(merged(x, y), z) == merged(x, merged(y, z)),
{
    assert(merged(merged(x, y), z) =~= merged(x, merged(y, z)));
}

/// A merge loses nothing: both logs are part of the merged log.
pub proof fn lemma_merge_only_grows(x: Set<Seq<char>>, y: Set<Seq<char>>)
    ensures
        x.subset_of(merged(x, y)),
        y.subset_of(merged(x, y)),
{
}

/// The node after the entries `messages` have been logged locally, one
/// after another.
pub open spec fn after_logging(pre: NodeView, messages: Seq<Seq<char>>) -> NodeView
    decreases messages.len(),
{
    if messages.len() == 0 {
        pre
    } else {
        logged(after_logging(pre, messages.drop_last()), messages.last()).0
    }
}

/// Logging entries adds exactly those entries to the log and changes
/// nothing else of the node.
pub proof fn lemma_after_logging(pre: NodeView, messages: Seq<Seq<char>>)
    ensures
        after_logging(pre, messages) == with_log(pre, pre.state.log.union(messages.to_set())),
    decreases messages.len(),
{
    if messages.len() == 0 {
        assert(messages.to_set() =~= Set::empty());
        assert(pre.state.log.union(messages.to_set()) =~= pre.state.log);
    } else {
        let rest = messages.drop_last();
        lemma_after_logging(pre, rest);
        let last = messages.last();
        let whole = messages.to_set();
        let grown = rest.to_set().insert(last);
        assert forall|e: Seq<char>| whole.contains(e) implies grown.contains(e) by {
            let i = choose|i: int| 0 <= i < messages.len() && messages[i] == e;
            if i < rest.len() {
                assert(rest[i] == e);
            }
        }
        assert forall|e: Seq<char>| grown.contains(e) implies whole.contains(e) by {
            if e == last {
                assert(messages[messages.len() - 1] == e);
            } else {
                let i = choose|i: int| 0 <= i < rest.len() && rest[i] == e;
                assert(messages[i] == e);
            }
        }
        assert(whole =~= grown);
        assert(pre.state.log.union(rest.to_set()).insert(messages.last()) =~= pre.state.log.union(
            messages.to_set(),
        ));
    }
}

/// Two nodes converge. Let `a` log the entries `sa` and `b` the entries
/// `sb`, in any order of theirs, and let each then receive a payload of
/// the other's log. Both logs are then the same: what the two nodes
/// started with, and `sa`, and `sb`.
pub proof fn lemma_logs_converge(
    a: NodeView,
    b: NodeView,
    sa: Seq<Seq<char>>,
    sb: Seq<Seq<char>>,
    payload_a: Seq<u8>,
    payload_b: Seq<u8>,
)
    requires
        log_wire_decoding(payload_a) == Some(after_logging(a, sa).state.log),
        log_wire_decoding(payload_b) == Some(after_logging(b, sb).state.log),
    ensures
        log_payload_received(after_logging(a, sa), b.state.local_peer_id, payload_b).0.state.log
            == log_payload_received(
            after_logging(b, sb),
            a.state.local_peer_id,
            payload_a,
        ).0.state.log,
        log_payload_received(after_logging(a, sa), b.state.local_peer_id, payload_b).0.state.log
            == a.state.log.union(b.state.log).union(sa.to_set()).union(sb.to_set()),
{
    lemma_after_logging(a, sa);
    lemma_after_logging(b, sb);
    let la = a.state.log.union(sa.to_set());
    let lb = b.state.log.union(sb.to_set());
    assert(merged(la, lb) =~= merged(lb, la));
    assert(merged(la, lb) =~= a.state.log.union(b.state.log).union(sa.to_set()).union(
        sb.to_set(),
    ));
}

/// A payload that arrives a second time changes nothing of the log.
pub proof fn lemma_repeated_payload_changes_nothing(
    pre: NodeView,
    first_source: Seq<char>,
    second_source: Seq<char>,
    payload: Seq<u8>,
)
    ensures
        log_payload_received(
            log_payload_received(pre, first_source, payload).0,
            second_source,
            payload,
        ).0.state.log == log_payload_received(pre, first_source, payload).0.state.log,
{
    match log_wire_decoding(payload) {
        Some(entries) => {
            lemma_merge_is_idempotent(pre.state.log, entries);
        },
        None => {},
    }
}

/// An envelope for somebody else is dropped: the node stays as it was,
/// the inbox with it, and nothing is done.
pub proof fn lemma_foreign_envelope_is_dropped(
    pre: NodeView,
    source: Seq<char>,
    envelope: PrivateMessageView,
    now: u64,
)
    requires
        envelope.to != pre.state.local_peer_id,
    ensures
        envelope_received(pre, source, envelope, now) == (pre, Seq::<NodeActionView>::empty()),
{
}

/// Whether `action` is a dial to `peer`.
pub open spec fn is_dial_to(action: NodeActionView, peer: Seq<char>) -> bool {
    action matches NodeActionView::Dial { peer: p, .. } && p == peer
}

/// Whether `actions` dial no peer twice, dial no peer whose dial was
/// pending before, and leave every peer they dial pending.
pub open spec fn dials_once(pre: NodeView, post: NodeView, actions: Seq<NodeActionView>) -> bool {
    &&& forall|i: int, peer: Seq<char>|
        0 <= i < actions.len() && #[trigger] is_dial_to(actions[i], peer)
            ==> !pre.pending_dials.contains(peer) && post.pending_dials.contains(peer)
    &&& forall|i: int, j: int, peer: Seq<char>|
        0 <= i < j < actions.len() && #[trigger] is_dial_to(actions[i], peer)
            ==> !#[trigger] is_dial_to(actions[j], peer)
}

/// A burst of discoveries dials each peer at most once, and no peer
/// whose dial is pending; a dial stays pending once the burst is over.
pub proof fn lemma_burst_dials_once(pre: NodeView, found: Seq<Discovery>)
    ensures
        dials_once(pre, discovered(pre, found).0, discovered(pre, found).1),
        pre.pending_dials.subset_of(discovered(pre, found).0.pending_dials),
    decreases found.len(),
{
    if found.len() > 0 {
        let (mid, earlier) = discovered(pre, found.drop_last());
        let (post, last) = discovered_one(mid, found.last());
        lemma_burst_dials_once(pre, found.drop_last());
        let actions = earlier + last;
        assert forall|i: int, peer: Seq<char>|
            0 <= i < actions.len() && #[trigger] is_dial_to(
                actions[i],
                peer,
            ) implies !pre.pending_dials.contains(peer) && post.pending_dials.contains(peer) by {
            if i < earlier.len() {
                assert(is_dial_to(earlier[i], peer));
            }
        }
        assert forall|i: int, j: int, peer: Seq<char>|
            0 <= i < j < actions.len() && #[trigger] is_dial_to(
                actions[i],
                peer,
            ) implies !#[trigger] is_dial_to(actions[j], peer) by {
            if j < earlier.len() {
                assert(is_dial_to(earlier[i], peer));
            } else if i < earlier.len() {
                assert(is_dial_to(earlier[i], peer));
                assert(mid.pending_dials.contains(peer));
            }
        }
    }
}

/// While a dial to `peer` is pending, no event makes the node dial that
/// peer again.
pub proof fn lemma_no_dial_while_pending(pre: NodeView, event: NodeEvent, peer: Seq<char>)
    requires
        pre.pending_dials.contains(peer),
    ensures
        forall|i: int|
            0 <= i < stepped(pre, event).1.len() ==> !is_dial_to(
                #[trigger] stepped(pre, event).1[i],
                peer,
            ),
{
    lemma_only_discovery_dials(pre, event);
    match event {
        NodeEvent::Discovered(found) => {
            lemma_burst_dials_once(pre, found@);
        },
        _ => {},
    }
}

/// Only a discovery makes the node dial.
pub proof fn lemma_only_discovery_dials(pre: NodeView, event: NodeEvent)
    ensures
        !(event is Discovered) ==> forall|i: int|
            0 <= i < stepped(pre, event).1.len() ==> !(#[trigger] stepped(pre, event).1[i] is Dial),
{
}

/// No event takes an entry out of the shared log, a message out of the
/// inbox or a public key out of the node's memory, and none changes the
/// node's peer id, keys or port.
pub proof fn lemma_node_only_learns(pre: NodeView, event: NodeEvent)
    ensures
        pre.state.log.subset_of(stepped(pre, event).0.state.log),
        pre.state.dms.is_prefix_of(stepped(pre, event).0.state.dms),
        pre.state.public_keys.dom().subset_of(stepped(pre, event).0.state.public_keys.dom()),
        stepped(pre, event).0.state.local_peer_id == pre.state.local_peer_id,
        stepped(pre, event).0.keys == pre.keys,
        stepped(pre, event).0.port == pre.port,
{
    match event {
        NodeEvent::Discovered(found) => {
            lemma_burst_keeps_state(pre, found@);
        },
        _ => {},
    }
}

/// A burst of discoveries changes the pending dials and nothing else.
pub proof fn lemma_burst_keeps_state(pre: NodeView, found: Seq<Discovery>)
    ensures
        discovered(pre, found).0 == (NodeView {
            pending_dials: discovered(pre, found).0.pending_dials,
            ..pre
        }),
    decreases found.len(),
{
    if found.len() > 0 {
        lemma_burst_keeps_state(pre, found.drop_last());
    }
}

/// No event lists a peer twice: a list of connected peers without
/// repetitions remains one.
pub proof fn lemma_peers_stay_distinct(pre: NodeView, event: NodeEvent)
    requires
        pre.state.peers.no_duplicates(),
    ensures
        stepped(pre, event).0.state.peers.no_duplicates(),
{
    match event {
        NodeEvent::Discovered(found) => {
            lemma_burst_keeps_state(pre, found@);
        },
        NodeEvent::ConnectionClosed { peer } => {
            lemma_without_keeps_distinct(pre.state.peers, peer@);
        },
        NodeEvent::ConnectionError { peer } => {
            if let Some(p) = peer {
                lemma_without_keeps_distinct(pre.state.peers, p@);
            }
        },
        _ => {},
    }
}

} // verus!
