//! The node loop's decisions.
//!
//! A node is a state and a function: for each event that the program
//! around it observes (a command, a typed line, something the transport
//! reports) the node changes its state and hands back the actions to
//! perform. The spec functions of this module say, event by event, what
//! the state becomes and which actions follow; the methods of [`Node`]
//! compute exactly that.

use crdts::GSet;
use vstd::hash_set::StringHashSet;
use vstd::prelude::*;
use vstd::string::{StrSliceExecFns, StringExecFns};
use vstd::utf8::encode_utf8;
use crate::action::{action_views, NodeAction, NodeActionView, Notice, NoticeView, Topic};
use crate::command::{parse_line, parsed_line, NodeCommand, StdinCommand, StdinCommandView};
use crate::dm::{
    open_dm, opened_dm, opens_to, seal_dm, sealed_dm, text_of, utf8_lossy, DmError, DmKeys,
    PrivateMessage, PrivateMessageView,
};
use crate::identity::{canonical_peer_id, parse_peer_id};
use crate::shared_log::{
    log_entries, log_file_decoding, log_file_encoding, log_listing, log_wire_decoding,
    log_wire_encoding, merged, wire_decode, wire_encode,
};
use crate::state::{without, AppState, AppStateView, DmEntry, DmEntryView};
use crate::storage::{load_log, save_log, storage_path, SnapshotFileView, StorageError};
use crate::telemetry::{NetworkEvent, NetworkEventView};
use crate::text::{text_eq, texts};

verus! {

/// A peer that local discovery has found.
#[derive(Clone, Debug, PartialEq, Eq)]
pub struct Discovery {
    /// The peer's id.
    pub peer: String,
    /// An address at which the peer can be dialed.
    pub address: String,
    /// Whether the transport holds a connection to the peer.
    pub connected: bool,
}

/// Something that happened and that the node has to decide on.
#[derive(Clone, Debug, PartialEq, Eq)]
pub enum NodeEvent {
    /// A command arrived from the web surface.
    Command(NodeCommand),
    /// The operator typed a line.
    StdinLine(String),
    /// The peers that the transport and gossip know, handed in after
    /// the node asked for them.
    PeersListed { connected: Vec<String>, gossip: Vec<String> },
    /// Local discovery found peers, in one burst.
    Discovered(Vec<Discovery>),
    /// Local discovery lost sight of peers.
    Expired(Vec<String>),
    /// A dial that the node asked for could not be started.
    DialFailed { peer: String },
    /// A connection to `peer` stands.
    ConnectionEstablished { peer: String },
    /// A connection to `peer` was closed.
    ConnectionClosed { peer: String },
    /// A connection attempt failed; the peer is known for some outgoing
    /// attempts only.
    ConnectionError { peer: Option<String> },
    /// `peer` has identified itself with its public key.
    Identified { peer: String, public_key: Vec<u8> },
    /// A gossip message arrived from `source`. `envelope` is what the
    /// payload reads as when it is taken as the JSON of a direct message
    /// envelope, `None` where it is none; it is looked at for messages on
    /// the private topic only. `now` is the time of arrival, in seconds
    /// since the epoch.
    Message {
        source: String,
        topic: String,
        payload: Vec<u8>,
        envelope: Option<PrivateMessage>,
        now: u64,
    },
}

/// A node as a mathematical value.
pub struct NodeView {
    /// What the node knows.
    pub state: AppStateView,
    /// The peers that are being dialed.
    pub pending_dials: Set<Seq<char>>,
    /// The keys under which direct messages are sealed.
    pub keys: DmKeys,
    /// The port of the transport.
    pub port: u16,
}

/// A node: its state, the dials it has asked for, its keys and its port.
pub struct Node {
    state: AppState,
    pending_dials: StringHashSet,
    keys: DmKeys,
    port: u16,
}

impl View for Node {
    type V = NodeView;

    closed spec fn view(&self) -> NodeView {
        NodeView {
            state: self.state@,
            pending_dials: self.pending_dials@,
            keys: self.keys,
            port: self.port,
        }
    }
}

/// A node that has just started with `log` as its shared log: nobody
/// connected, no key seen, no message received, no dial pending.
pub open spec fn fresh(
    port: u16,
    local_peer_id: Seq<char>,
    keys: DmKeys,
    log: Set<Seq<char>>,
) -> NodeView {
    NodeView {
        state: AppStateView {
            log,
            peers: Seq::empty(),
            public_keys: Map::empty(),
            dms: Seq::empty(),
            local_peer_id,
        },
        pending_dials: Set::empty(),
        keys,
        port,
    }
}

/// The node with another shared log.
pub open spec fn with_log(pre: NodeView, log: Set<Seq<char>>) -> NodeView {
    NodeView { state: AppStateView { log, ..pre.state }, ..pre }
}

/// The node after the end of a dial to `peer`, whatever the end was.
pub open spec fn dial_settled(pre: NodeView, peer: Seq<char>) -> NodeView {
    NodeView { pending_dials: pre.pending_dials.remove(peer), ..pre }
}

/// Persisting a log with these entries: write the snapshot file of the
/// node on `port`.
pub open spec fn persisted(port: u16, log: Set<Seq<char>>) -> Seq<NodeActionView> {
    seq![
        NodeActionView::WriteSnapshot(
            SnapshotFileView { path: storage_path(port), text: log_file_encoding(log) },
        ),
    ]
}

/// Broadcasting a log with these entries: publish the whole log on the
/// log topic.
pub open spec fn broadcast(log: Set<Seq<char>>) -> Seq<NodeActionView> {
    seq![NodeActionView::Publish { topic: Topic::Crdt, payload: log_wire_encoding(log) }]
}

/// A local log entry: the entry joins the log, the log is persisted and
/// broadcast, and telemetry reports the entry as this node's.
pub open spec fn logged(pre: NodeView, message: Seq<char>) -> (NodeView, Seq<NodeActionView>) {
    let log = pre.state.log.insert(message);
    (
        with_log(pre, log),
        persisted(pre.port, log) + broadcast(log) + seq![
            NodeActionView::Emit(
                NetworkEventView::LogEntry { from: pre.state.local_peer_id, content: message },
            ),
        ],
    )
}

/// The notice that refuses a direct message to `to`, if there is one:
/// `target` is the peer id that `to` reads as.
pub open spec fn dm_refusal(pre: NodeView, to: Seq<char>, target: Option<Seq<char>>) -> Option<
    NoticeView,
> {
    match target {
        None => Some(NoticeView::InvalidPeerId),
        Some(id) => if pre.state.public_keys.contains_key(id) {
            None
        } else {
            Some(NoticeView::PublicKeyMissing { peer: to })
        },
    }
}

/// What becomes of a direct message to `to` once it has been sealed, or
/// could not be.
pub open spec fn dm_dispatched(to: Seq<char>, sealed: Option<PrivateMessageView>) -> Seq<
    NodeActionView,
> {
    match sealed {
        Some(envelope) => seq![NodeActionView::PublishDm(envelope)],
        None => seq![NodeActionView::Notify(NoticeView::EncryptionFailed { peer: to })],
    }
}

/// A request to send `content` to `to`: refused with a notice where `to`
/// is no peer id or no public key of that peer has been seen, otherwise
/// sealed and published.
pub open spec fn dm_requested(pre: NodeView, to: Seq<char>, content: Seq<char>) -> Seq<
    NodeActionView,
> {
    match dm_refusal(pre, to, canonical_peer_id(to)) {
        Some(notice) => seq![NodeActionView::Notify(notice)],
        None => dm_dispatched(to, sealed_dm(pre.keys, to, content)),
    }
}

/// A line typed by the operator.
pub open spec fn typed(pre: NodeView, line: Seq<char>) -> (NodeView, Seq<NodeActionView>) {
    match parsed_line(line) {
        StdinCommandView::Peers => (pre, seq![NodeActionView::ListPeers]),
        StdinCommandView::Log(message) => logged(pre, message),
        StdinCommandView::LogUsage => (pre, seq![NodeActionView::Notify(NoticeView::LogUsage)]),
        StdinCommandView::Dm { to, content } => (pre, dm_requested(pre, to, content)),
        StdinCommandView::DmUsage => (pre, seq![NodeActionView::Notify(NoticeView::DmUsage)]),
        StdinCommandView::Show => (
            pre,
            seq![
                NodeActionView::Notify(
                    NoticeView::ShowLog { entries: log_listing(pre.state.log) },
                ),
            ],
        ),
        StdinCommandView::Unknown => (
            pre,
            seq![NodeActionView::Notify(NoticeView::UnknownCommand)],
        ),
        StdinCommandView::Chat(text) => (
            pre,
            seq![NodeActionView::Publish { topic: Topic::Global, payload: encode_utf8(text) }],
        ),
    }
}

/// The peers that the transport and gossip know: the operator is told
/// both lists.
pub open spec fn peers_listed(connected: Seq<Seq<char>>, gossip: Seq<Seq<char>>) -> Seq<
    NodeActionView,
> {
    seq![
        NodeActionView::Notify(NoticeView::ConnectedPeers { peers: connected }),
        NodeActionView::Notify(NoticeView::GossipPeers { peers: gossip }),
    ]
}

/// One discovered peer: it becomes an explicit gossip peer, and it is
/// dialed and marked as pending unless it is connected or pending
/// already.
pub open spec fn discovered_one(pre: NodeView, found: Discovery) -> (
    NodeView,
    Seq<NodeActionView>,
) {
    let add = NodeActionView::AddExplicitPeer { peer: found.peer@ };
    if !found.connected && !pre.pending_dials.contains(found.peer@) {
        (
            NodeView { pending_dials: pre.pending_dials.insert(found.peer@), ..pre },
            seq![add, NodeActionView::Dial { peer: found.peer@, address: found.address@ }],
        )
    } else {
        (pre, seq![add])
    }
}

/// A burst of discovered peers, taken one after another.
pub open spec fn discovered(pre: NodeView, found: Seq<Discovery>) -> (
    NodeView,
    Seq<NodeActionView>,
)
    decreases found.len(),
{
    if found.len() == 0 {
        (pre, Seq::empty())
    } else {
        let (mid, earlier) = discovered(pre, found.drop_last());
        let (post, last) = discovered_one(mid, found.last());
        (post, earlier + last)
    }
}

/// Peers that discovery lost sight of: none stays an explicit gossip
/// peer.
pub open spec fn expired(peers: Seq<String>) -> Seq<NodeActionView> {
    Seq::new(peers.len(), |i: int| NodeActionView::RemoveExplicitPeer { peer: peers[i]@ })
}

/// A dial that could not be started: the peer is no longer pending, so
/// that the next discovery dials again.
pub open spec fn dial_failed(pre: NodeView, peer: Seq<char>) -> (NodeView, Seq<NodeActionView>) {
    (
        dial_settled(pre, peer),
        seq![NodeActionView::Notify(NoticeView::DialFailed { peer })],
    )
}

/// A connection stands: the peer is listed, its dial is settled, and
/// telemetry reports it.
pub open spec fn connection_established(pre: NodeView, peer: Seq<char>) -> (
    NodeView,
    Seq<NodeActionView>,
) {
    let peers = if pre.state.peers.contains(peer) {
        pre.state.peers
    } else {
        pre.state.peers.push(peer)
    };
    (
        NodeView {
            state: AppStateView { peers, ..pre.state },
            pending_dials: pre.pending_dials.remove(peer),
            ..pre
        },
        seq![NodeActionView::Emit(NetworkEventView::PeerConnected { peer_id: peer })],
    )
}

/// A connection is gone, closed or failed: the peer is taken off the
/// list, its dial is settled, and telemetry reports it.
pub open spec fn connection_lost(pre: NodeView, peer: Seq<char>) -> (
    NodeView,
    Seq<NodeActionView>,
) {
    (
        NodeView {
            state: AppStateView { peers: without(pre.state.peers, peer), ..pre.state },
            pending_dials: pre.pending_dials.remove(peer),
            ..pre
        },
        seq![NodeActionView::Emit(NetworkEventView::PeerDisconnected { peer_id: peer })],
    )
}

/// A peer has identified itself: its public key is kept.
pub open spec fn identified(pre: NodeView, peer: Seq<char>, public_key: Seq<u8>) -> NodeView {
    NodeView {
        state: AppStateView {
            public_keys: pre.state.public_keys.insert(peer, public_key),
            ..pre.state
        },
        ..pre
    }
}

/// Another node's log has arrived from `source`, read from a payload
/// whose text is `text`; `remote` is `None` where the payload held no
/// log. A log is merged into the shared log, which is then persisted,
/// and telemetry reports the payload. Anything else is dropped with a
/// notice.
pub open spec fn remote_log_merged(
    pre: NodeView,
    source: Seq<char>,
    remote: Option<Set<Seq<char>>>,
    text: Seq<char>,
) -> (NodeView, Seq<NodeActionView>) {
    match remote {
        None => (pre, seq![NodeActionView::Notify(NoticeView::BadLogPayload { from: source })]),
        Some(entries) => {
            let log = merged(pre.state.log, entries);
            (
                with_log(pre, log),
                persisted(pre.port, log) + seq![
                    NodeActionView::Emit(
                        NetworkEventView::LogEntry { from: source, content: text },
                    ),
                ],
            )
        },
    }
}

/// A payload on the log topic.
pub open spec fn log_payload_received(pre: NodeView, source: Seq<char>, payload: Seq<u8>) -> (
    NodeView,
    Seq<NodeActionView>,
) {
    remote_log_merged(pre, source, log_wire_decoding(payload), text_of(payload))
}

/// An envelope for this node has been opened, or could not be. A message
/// goes to the inbox with the time of its arrival, and the operator and
/// telemetry are told. A message that did not authenticate is dropped
/// with a notice, a malformed envelope without one.
pub open spec fn dm_delivered(
    pre: NodeView,
    source: Seq<char>,
    opened: Result<Seq<char>, DmError>,
    now: u64,
) -> (NodeView, Seq<NodeActionView>) {
    match opened {
        Ok(content) => (
            NodeView {
                state: AppStateView {
                    dms: pre.state.dms.push(
                        DmEntryView { from: source, content, timestamp: now },
                    ),
                    ..pre.state
                },
                ..pre
            },
            seq![
                NodeActionView::Notify(NoticeView::PrivateMessage { from: source, content }),
                NodeActionView::Emit(
                    NetworkEventView::MessageReceived {
                        from: source,
                        to: pre.state.local_peer_id,
                        protocol: Topic::Private.name_text(),
                    },
                ),
            ],
        ),
        Err(DmError::Rejected) => (
            pre,
            seq![NodeActionView::Notify(NoticeView::DecryptionFailed { from: source })],
        ),
        Err(DmError::Malformed) => (pre, Seq::empty()),
    }
}

/// An envelope on the private topic. One that names another recipient
/// is dropped unopened and leaves no trace.
pub open spec fn envelope_received(
    pre: NodeView,
    source: Seq<char>,
    envelope: PrivateMessageView,
    now: u64,
) -> (NodeView, Seq<NodeActionView>) {
    if envelope.to == pre.state.local_peer_id {
        dm_delivered(pre, source, opened_dm(pre.keys, envelope), now)
    } else {
        (pre, Seq::empty())
    }
}

/// A chat line on the global topic: the operator sees it as text.
pub open spec fn chat_received(source: Seq<char>, payload: Seq<u8>) -> Seq<NodeActionView> {
    seq![NodeActionView::Notify(NoticeView::Chat { from: source, text: text_of(payload) })]
}

/// A gossip message, by the topic it came on.
pub open spec fn message_received(
    pre: NodeView,
    source: Seq<char>,
    topic: Seq<char>,
    payload: Seq<u8>,
    envelope: Option<PrivateMessage>,
    now: u64,
) -> (NodeView, Seq<NodeActionView>) {
    match Topic::of_hash(topic) {
        Topic::Crdt => log_payload_received(pre, source, payload),
        Topic::Private => match envelope {
            Some(message) => envelope_received(pre, source, message@, now),
            None => (pre, Seq::empty()),
        },
        Topic::Global => (pre, chat_received(source, payload)),
    }
}

/// What an event makes of a node: the node after it, and the actions to
/// perform.
pub open spec fn stepped(pre: NodeView, event: NodeEvent) -> (NodeView, Seq<NodeActionView>) {
    match event {
        NodeEvent::Command(NodeCommand::Log(message)) => logged(pre, message@),
        NodeEvent::Command(NodeCommand::SendDm { to, content }) => (
            pre,
            dm_requested(pre, to@, content@),
        ),
        NodeEvent::StdinLine(line) => typed(pre, line@),
        NodeEvent::PeersListed { connected, gossip } => (
            pre,
            peers_listed(texts(connected@), texts(gossip@)),
        ),
        NodeEvent::Discovered(found) => discovered(pre, found@),
        NodeEvent::Expired(peers) => (pre, expired(peers@)),
        NodeEvent::DialFailed { peer } => dial_failed(pre, peer@),
        NodeEvent::ConnectionEstablished { peer } => connection_established(pre, peer@),
        NodeEvent::ConnectionClosed { peer } => connection_lost(pre, peer@),
        NodeEvent::ConnectionError { peer } => match peer {
            Some(peer) => connection_lost(pre, peer@),
            None => (pre, Seq::empty()),
        },
        NodeEvent::Identified { peer, public_key } => (
            identified(pre, peer@, public_key@),
            Seq::empty(),
        ),
        NodeEvent::Message { source, topic, payload, envelope, now } => message_received(
            pre,
            source@,
            topic@,
            payload@,
            envelope,
            now,
        ),
    }
}

/// Appends one action.
fn push_action(out: &mut Vec<NodeAction>, action: NodeAction)
    ensures
        action_views(final(out)@) == action_views(old(out)@).push(action@),
{
    out.push(action);
    assert(action_views(out@) =~= action_views(old(out)@).push(action@));
}

/// A list of one action.
fn just(action: NodeAction) -> (actions: Vec<NodeAction>)
    ensures
        action_views(actions@) == seq![action@],
{
    let mut actions: Vec<NodeAction> = Vec::new();
    assert(action_views(actions@) =~= Seq::empty());
    push_action(&mut actions, action);
    assert(Seq::<NodeActionView>::empty().push(action@) =~= seq![action@]);
    actions
}

/// A list of no action.
fn nothing() -> (actions: Vec<NodeAction>)
    ensures
        action_views(actions@) == Seq::<NodeActionView>::empty(),
{
    let actions: Vec<NodeAction> = Vec::new();
    assert(action_views(actions@) =~= Seq::empty());
    actions
}

impl Node {
    /// A node on `port` with the peer id `local_peer_id`, which finds
    /// `stored` in its snapshot file (`None`: no file) and seals direct
    /// messages under `keys`.
    ///
    /// The node starts from the stored log, or from an empty one, with
    /// nobody connected and no dial pending. A snapshot that holds no
    /// log is an error: the node does not start.
    pub fn start(port: u16, local_peer_id: String, stored: Option<&str>, keys: DmKeys) -> (r:
        Result<Node, StorageError>)
        ensures
            match stored {
                None => r matches Ok(node) && node@ == fresh(
                    port,
                    local_peer_id@,
                    keys,
                    Set::empty(),
                ),
                Some(text) => match r {
                    Ok(node) => log_file_decoding(text@) == Some(node@.state.log) && node@
                        == fresh(port, local_peer_id@, keys, node@.state.log),
                    Err(e) => e == StorageError::Parse && log_file_decoding(text@) is None,
                },
            },
    {
        match load_log(stored) {
            Ok(log) => {
                let mut state = AppState::new(local_peer_id);
                state.merge_log(log);
                assert(state@.log =~= log_entries(log));
                Ok(Node { state, pending_dials: StringHashSet::new(), keys, port })
            },
            Err(e) => Err(e),
        }
    }

    /// What the node knows.
    pub fn state(&self) -> (state: &AppState)
        ensures
            state@ == self@.state,
    {
        &self.state
    }

    /// The port of the transport.
    pub fn port(&self) -> (port: u16)
        ensures
            port == self@.port,
    {
        self.port
    }

    /// Whether a dial to `peer` is pending.
    pub fn is_dialing(&self, peer: &str) -> (pending: bool)
        ensures
            pending == self@.pending_dials.contains(peer@),
    {
        self.pending_dials.contains(peer)
    }

    /// Appends the action that persists the log. The snapshot text reads
    /// back as the log.
    fn persist(&self, out: &mut Vec<NodeAction>)
        ensures
            action_views(final(out)@) == action_views(old(out)@) + persisted(
                self@.port,
                self@.state.log,
            ),
            log_file_decoding(log_file_encoding(self@.state.log)) == Some(self@.state.log),
    {
        let file = save_log(self.port, self.state.log());
        push_action(out, NodeAction::WriteSnapshot(file));
        assert(action_views(out@) =~= action_views(old(out)@) + persisted(
            self@.port,
            self@.state.log,
        ));
    }

    /// Appends the action that broadcasts the log. The payload reads
    /// back as the log.
    fn broadcast_log(&self, out: &mut Vec<NodeAction>)
        ensures
            action_views(final(out)@) == action_views(old(out)@) + broadcast(self@.state.log),
            log_wire_decoding(log_wire_encoding(self@.state.log)) == Some(self@.state.log),
    {
        let payload = wire_encode(self.state.log()).unwrap();
        push_action(out, NodeAction::Publish { topic: Topic::Crdt, payload });
        assert(action_views(out@) =~= action_views(old(out)@) + broadcast(self@.state.log));
    }

    /// Adds `message` to the shared log.
    ///
    /// The snapshot that is written and the payload that is published
    /// both read back as the log with the new entry.
    pub fn on_log(&mut self, message: String) -> (actions: Vec<NodeAction>)
        ensures
            (final(self)@, action_views(actions@)) == logged(old(self)@, message@),
            log_file_decoding(log_file_encoding(final(self)@.state.log)) == Some(
                final(self)@.state.log,
            ),
            log_wire_decoding(log_wire_encoding(final(self)@.state.log)) == Some(
                final(self)@.state.log,
            ),
    {
        let content = message.clone();
        self.state.insert_log(message);
        let mut actions = nothing();
        self.persist(&mut actions);
        self.broadcast_log(&mut actions);
        push_action(
            &mut actions,
            NodeAction::Emit(
                NetworkEvent::LogEntry { from: self.state.local_peer_id().clone(), content },
            ),
        );
        assert(action_views(actions@) =~= logged(old(self)@, message@).1);
        actions
    }

    /// The notice that refuses a direct message to `to`, if there is
    /// one: `target` is the peer id that `to` reads as.
    pub fn refuse_dm(&self, to: &str, target: Option<String>) -> (notice: Option<Notice>)
        ensures
            match notice {
                Some(n) => dm_refusal(
                    self@,
                    to@,
                    match target {
                        Some(id) => Some(id@),
                        None => None,
                    },
                ) == Some(n@),
                None => dm_refusal(
                    self@,
                    to@,
                    match target {
                        Some(id) => Some(id@),
                        None => None,
                    },
                ) is None,
            },
    {
        match target {
            None => Some(Notice::InvalidPeerId),
            Some(id) => if self.state.knows_public_key(id.as_str()) {
                None
            } else {
                Some(Notice::PublicKeyMissing { peer: String::from_str(to) })
            },
        }
    }

    /// What becomes of a direct message to `to` once it has been sealed,
    /// or could not be.
    pub fn dispatch_dm(to: &str, sealed: Option<PrivateMessage>) -> (actions: Vec<NodeAction>)
        ensures
            action_views(actions@) == dm_dispatched(
                to@,
                match sealed {
                    Some(envelope) => Some(envelope@),
                    None => None,
                },
            ),
    {
        match sealed {
            Some(envelope) => just(NodeAction::PublishDm(envelope)),
            None => just(
                NodeAction::Notify(Notice::EncryptionFailed { peer: String::from_str(to) }),
            ),
        }
    }

    /// Sends `content` to the peer `to` as a direct message.
    ///
    /// An envelope that is published opens to `content` for whoever
    /// holds the node's key.
    pub fn on_dm_request(&self, to: &str, content: &str) -> (actions: Vec<NodeAction>)
        ensures
            action_views(actions@) == dm_requested(self@, to@, content@),
            forall|m: PrivateMessageView|
                action_views(actions@) == seq![NodeActionView::PublishDm(m)] ==> opens_to(
                    m,
                    self@.keys.key,
                    content@,
                ),
    {
        let actions = match self.refuse_dm(to, parse_peer_id(to)) {
            Some(notice) => just(NodeAction::Notify(notice)),
            None => Node::dispatch_dm(to, seal_dm(&self.keys, to, content)),
        };
        assert forall|m: PrivateMessageView|
            action_views(actions@) == seq![NodeActionView::PublishDm(m)] implies opens_to(
            m,
            self@.keys.key,
            content@,
        ) by {
            assert(action_views(actions@)[0] == seq![NodeActionView::PublishDm(m)][0]);
        }
        actions
    }

    /// Takes a line typed by the operator.
    pub fn on_stdin_line(&mut self, line: &str) -> (actions: Vec<NodeAction>)
        ensures
            (final(self)@, action_views(actions@)) == typed(old(self)@, line@),
    {
        match parse_line(line) {
            StdinCommand::Peers => just(NodeAction::ListPeers),
            StdinCommand::Log(message) => self.on_log(message),
            StdinCommand::LogUsage => just(NodeAction::Notify(Notice::LogUsage)),
            StdinCommand::Dm { to, content } => self.on_dm_request(to.as_str(), content.as_str()),
            StdinCommand::DmUsage => just(NodeAction::Notify(Notice::DmUsage)),
            StdinCommand::Show => just(
                NodeAction::Notify(Notice::ShowLog { entries: self.state.entries() }),
            ),
            StdinCommand::Unknown => just(NodeAction::Notify(Notice::UnknownCommand)),
            StdinCommand::Chat(text) => just(
                NodeAction::Publish { topic: Topic::Global, payload: text.as_str().as_bytes_vec() },
            ),
        }
    }

    /// Takes the lists of peers that the node asked for.
    pub fn on_peers_listed(connected: Vec<String>, gossip: Vec<String>) -> (actions: Vec<
        NodeAction,
    >)
        ensures
            action_views(actions@) == peers_listed(texts(connected@), texts(gossip@)),
    {
        let mut actions = just(NodeAction::Notify(Notice::ConnectedPeers { peers: connected }));
        push_action(&mut actions, NodeAction::Notify(Notice::GossipPeers { peers: gossip }));
        assert(action_views(actions@) =~= peers_listed(texts(connected@), texts(gossip@)));
        actions
    }

    /// Takes one discovered peer.
    pub fn on_peer_discovered(&mut self, found: &Discovery) -> (actions: Vec<NodeAction>)
        ensures
            (final(self)@, action_views(actions@)) == discovered_one(old(self)@, *found),
    {
        let mut actions = just(NodeAction::AddExplicitPeer { peer: found.peer.clone() });
        if !found.connected && !self.pending_dials.contains(found.peer.as_str()) {
            self.pending_dials.insert(found.peer.clone());
            push_action(
                &mut actions,
                NodeAction::Dial { peer: found.peer.clone(), address: found.address.clone() },
            );
            assert(action_views(actions@) =~= discovered_one(old(self)@, *found).1);
        }
        actions
    }

    /// Takes a burst of discovered peers, one after another.
    pub fn on_discovered(&mut self, found: &Vec<Discovery>) -> (actions: Vec<NodeAction>)
        ensures
            (final(self)@, action_views(actions@)) == discovered(old(self)@, found@),
    {
        let mut actions = nothing();
        let mut i: usize = 0;
        assert(found@.take(0) =~= Seq::empty());
        while i < found.len()
            invariant
                i <= found.len(),
                (self@, action_views(actions@)) == discovered(old(self)@, found@.take(i as int)),
            decreases found.len() - i,
        {
            let ghost mid = self@;
            let ghost earlier = action_views(actions@);
            let mut more = self.on_peer_discovered(&found[i]);
            proof {
                assert(found@.take(i + 1).drop_last() =~= found@.take(i as int));
                assert(found@.take(i + 1).last() == found[i as int]);
            }
            let ghost more_views = action_views(more@);
            actions.append(&mut more);
            assert(action_views(actions@) =~= earlier + more_views);
            i += 1;
        }
        assert(found@.take(found.len() as int) =~= found@);
        actions
    }

    /// Takes the peers that discovery lost sight of.
    pub fn on_expired(peers: &Vec<String>) -> (actions: Vec<NodeAction>)
        ensures
            action_views(actions@) == expired(peers@),
    {
        let mut actions: Vec<NodeAction> = Vec::new();
        let mut i: usize = 0;
        while i < peers.len()
            invariant
                i <= peers.len(),
                actions.len() == i,
                forall|k: int|
                    0 <= k < i ==> actions[k]@ == (NodeActionView::RemoveExplicitPeer {
                        peer: peers[k]@,
                    }),
            decreases peers.len() - i,
        {
            actions.push(NodeAction::RemoveExplicitPeer { peer: peers[i].clone() });
            i += 1;
        }
        assert(action_views(actions@) =~= expired(peers@));
        actions
    }

    /// Takes the news that a dial to `peer` could not be started.
    pub fn on_dial_failed(&mut self, peer: &str) -> (actions: Vec<NodeAction>)
        ensures
            (final(self)@, action_views(actions@)) == dial_failed(old(self)@, peer@),
    {
        self.pending_dials.remove(peer);
        just(NodeAction::Notify(Notice::DialFailed { peer: String::from_str(peer) }))
    }

    /// Takes the news that a connection to `peer` stands.
    pub fn on_connection_established(&mut self, peer: &str) -> (actions: Vec<NodeAction>)
        ensures
            (final(self)@, action_views(actions@)) == connection_established(old(self)@, peer@),
            final(self)@.state.peers.no_duplicates(),
    {
        self.state.connect(String::from_str(peer));
        self.pending_dials.remove(peer);
        just(NodeAction::Emit(NetworkEvent::PeerConnected { peer_id: String::from_str(peer) }))
    }

    /// Takes the news that a connection to `peer` is gone.
    pub fn on_connection_lost(&mut self, peer: &str) -> (actions: Vec<NodeAction>)
        ensures
            (final(self)@, action_views(actions@)) == connection_lost(old(self)@, peer@),
            final(self)@.state.peers.no_duplicates(),
    {
        self.state.disconnect(peer);
        self.pending_dials.remove(peer);
        just(NodeAction::Emit(NetworkEvent::PeerDisconnected { peer_id: String::from_str(peer) }))
    }

    /// Keeps the public key with which `peer` has identified itself.
    pub fn on_identified(&mut self, peer: String, public_key: Vec<u8>)
        ensures
            final(self)@ == identified(old(self)@, peer@, public_key@),
    {
        self.state.record_public_key(peer, public_key);
    }

    /// Merges the log that arrived from `source`, read from a payload
    /// whose text is `text`; `remote` is `None` where the payload held
    /// no log.
    pub fn merge_remote_log(
        &mut self,
        source: &str,
        remote: Option<GSet<String>>,
        text: String,
    ) -> (actions: Vec<NodeAction>)
        ensures
            (final(self)@, action_views(actions@)) == remote_log_merged(
                old(self)@,
                source@,
                match remote {
                    Some(log) => Some(log_entries(log)),
                    None => None,
                },
                text@,
            ),
    {
        match remote {
            None => just(
                NodeAction::Notify(Notice::BadLogPayload { from: String::from_str(source) }),
            ),
            Some(log) => {
                self.state.merge_log(log);
                let mut actions = nothing();
                self.persist(&mut actions);
                push_action(
                    &mut actions,
                    NodeAction::Emit(
                        NetworkEvent::LogEntry { from: String::from_str(source), content: text },
                    ),
                );
                assert(action_views(actions@) =~= remote_log_merged(
                    old(self)@,
                    source@,
                    Some(log_entries(log)),
                    text@,
                ).1);
                actions
            },
        }
    }

    /// Takes a payload that arrived on the log topic.
    pub fn on_log_payload(&mut self, source: &str, payload: &[u8]) -> (actions: Vec<NodeAction>)
        ensures
            (final(self)@, action_views(actions@)) == log_payload_received(
                old(self)@,
                source@,
                payload@,
            ),
    {
        self.merge_remote_log(source, wire_decode(payload), utf8_lossy(payload))
    }

    /// Takes what opening an envelope for this node gave.
    pub fn deliver_dm(
        &mut self,
        source: &str,
        opened: Result<String, DmError>,
        now: u64,
    ) -> (actions: Vec<NodeAction>)
        ensures
            (final(self)@, action_views(actions@)) == dm_delivered(
                old(self)@,
                source@,
                match opened {
                    Ok(content) => Ok(content@),
                    Err(e) => Err(e),
                },
                now,
            ),
    {
        match opened {
            Ok(content) => {
                self.state.push_dm(
                    DmEntry {
                        from: String::from_str(source),
                        content: content.clone(),
                        timestamp: now,
                    },
                );
                let mut actions = just(
                    NodeAction::Notify(
                        Notice::PrivateMessage { from: String::from_str(source), content },
                    ),
                );
                push_action(
                    &mut actions,
                    NodeAction::Emit(
                        NetworkEvent::MessageReceived {
                            from: String::from_str(source),
                            to: self.state.local_peer_id().clone(),
                            protocol: String::from_str(Topic::Private.name()),
                        },
                    ),
                );
                assert(action_views(actions@) =~= dm_delivered(
                    old(self)@,
                    source@,
                    Ok(content@),
                    now,
                ).1);
                actions
            },
            Err(DmError::Rejected) => just(
                NodeAction::Notify(Notice::DecryptionFailed { from: String::from_str(source) }),
            ),
            Err(DmError::Malformed) => nothing(),
        }
    }

    /// Takes an envelope that arrived on the private topic.
    pub fn on_envelope(&mut self, source: &str, envelope: &PrivateMessage, now: u64) -> (actions:
        Vec<NodeAction>)
        ensures
            (final(self)@, action_views(actions@)) == envelope_received(
                old(self)@,
                source@,
                envelope@,
                now,
            ),
    {
        if text_eq(envelope.to.as_str(), self.state.local_peer_id().as_str()) {
            self.deliver_dm(source, open_dm(&self.keys, envelope), now)
        } else {
            nothing()
        }
    }

    /// Takes a gossip message.
    pub fn on_message(
        &mut self,
        source: &str,
        topic: &str,
        payload: &[u8],
        envelope: Option<PrivateMessage>,
        now: u64,
    ) -> (actions: Vec<NodeAction>)
        ensures
            (final(self)@, action_views(actions@)) == message_received(
                old(self)@,
                source@,
                topic@,
                payload@,
                envelope,
                now,
            ),
    {
        match Topic::of(topic) {
            Topic::Crdt => self.on_log_payload(source, payload),
            Topic::Private => match envelope {
                Some(message) => self.on_envelope(source, &message, now),
                None => nothing(),
            },
            Topic::Global => just(
                NodeAction::Notify(
                    Notice::Chat { from: String::from_str(source), text: utf8_lossy(payload) },
                ),
            ),
        }
    }

    /// Takes an event: changes the node as the event demands and returns
    /// the actions to perform, in order.
    pub fn handle(&mut self, event: NodeEvent) -> (actions: Vec<NodeAction>)
        ensures
            (final(self)@, action_views(actions@)) == stepped(old(self)@, event),
    {
        match event {
            NodeEvent::Command(NodeCommand::Log(message)) => self.on_log(message),
            NodeEvent::Command(NodeCommand::SendDm { to, content }) => self.on_dm_request(
                to.as_str(),
                content.as_str(),
            ),
            NodeEvent::StdinLine(line) => self.on_stdin_line(line.as_str()),
            NodeEvent::PeersListed { connected, gossip } => Node::on_peers_listed(
                connected,
                gossip,
            ),
            NodeEvent::Discovered(found) => self.on_discovered(&found),
            NodeEvent::Expired(peers) => Node::on_expired(&peers),
            NodeEvent::DialFailed { peer } => self.on_dial_failed(peer.as_str()),
            NodeEvent::ConnectionEstablished { peer } => self.on_connection_established(
                peer.as_str(),
            ),
            NodeEvent::ConnectionClosed { peer } => self.on_connection_lost(peer.as_str()),
            NodeEvent::ConnectionError { peer } => match peer {
                Some(peer) => self.on_connection_lost(peer.as_str()),
                None => nothing(),
            },
            NodeEvent::Identified { peer, public_key } => {
                self.on_identified(peer, public_key);
                nothing()
            },
            NodeEvent::Message { source, topic, payload, envelope, now } => self.on_message(
                source.as_str(),
                topic.as_str(),
                payload.as_slice(),
                envelope,
                now,
            ),
        }
    }
}

} // verus!
