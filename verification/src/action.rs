//! What the node asks of the program around it: the actions that follow
//! from an event, and the notices that it has for its operator.

use vstd::prelude::*;
use vstd::string::StringExecFns;
use crate::dm::{PrivateMessage, PrivateMessageView};
use crate::storage::{SnapshotFile, SnapshotFileView};
use crate::telemetry::{NetworkEvent, NetworkEventView};
use crate::text::{
    debug_quoted, debug_text, decimal, join_from, joined, push_decimal, text_eq, texts,
};

verus! {

/// The three gossip topics of the mesh.
#[derive(Clone, Copy, Debug, PartialEq, Eq)]
pub enum Topic {
    /// Chat lines, as raw UTF-8.
    Global,
    /// The shared log, as JSON.
    Crdt,
    /// Direct messages, as JSON envelopes.
    Private,
}

impl Topic {
    /// The name under which the topic is subscribed and published.
    pub open spec fn name_text(self) -> Seq<char> {
        match self {
            Topic::Global => "ghostmesh-global"@,
            Topic::Crdt => "ghostmesh-crdt"@,
            Topic::Private => "ghostmesh-private"@,
        }
    }

    /// The topic to which a message with topic hash `hash` is delivered:
    /// the log topic and the private topic by their names, anything else
    /// as chat.
    pub open spec fn of_hash(hash: Seq<char>) -> Topic {
        if hash == Topic::Crdt.name_text() {
            Topic::Crdt
        } else if hash == Topic::Private.name_text() {
            Topic::Private
        } else {
            Topic::Global
        }
    }

    /// The name under which the topic is subscribed and published.
    pub fn name(self) -> (name: &'static str)
        ensures
            name@ == self.name_text(),
    {
        match self {
            Topic::Global => "ghostmesh-global",
            Topic::Crdt => "ghostmesh-crdt",
            Topic::Private => "ghostmesh-private",
        }
    }

    /// The topic to which a message with topic hash `hash` is delivered.
    pub fn of(hash: &str) -> (topic: Topic)
        ensures
            topic == Topic::of_hash(hash@),
    {
        if text_eq(hash, Topic::Crdt.name()) {
            Topic::Crdt
        } else if text_eq(hash, Topic::Private.name()) {
            Topic::Private
        } else {
            Topic::Global
        }
    }
}

/// Something that the node has to tell its operator.
#[derive(Clone, Debug, PartialEq, Eq)]
pub enum Notice {
    /// `/log` came without a message.
    LogUsage,
    /// `/dm` came without a peer or without a message.
    DmUsage,
    /// A line began with `/` and named no command.
    UnknownCommand,
    /// The target of a direct message is no peer id.
    InvalidPeerId,
    /// No public key of the target has been seen yet.
    PublicKeyMissing { peer: String },
    /// The message for `peer` could not be sealed.
    EncryptionFailed { peer: String },
    /// The entries of the shared log, in ascending order.
    ShowLog { entries: Vec<String> },
    /// A chat line arrived.
    Chat { from: String, text: String },
    /// A direct message arrived and was opened.
    PrivateMessage { from: String, content: String },
    /// A direct message for this node did not authenticate.
    DecryptionFailed { from: String },
    /// A payload on the log topic was not the JSON of a log.
    BadLogPayload { from: String },
    /// A dial could not be started.
    DialFailed { peer: String },
    /// The peers to which the transport is connected.
    ConnectedPeers { peers: Vec<String> },
    /// The peers that gossip knows.
    GossipPeers { peers: Vec<String> },
}

/// A notice as a mathematical value.
pub enum NoticeView {
    LogUsage,
    DmUsage,
    UnknownCommand,
    InvalidPeerId,
    PublicKeyMissing { peer: Seq<char> },
    EncryptionFailed { peer: Seq<char> },
    ShowLog { entries: Seq<Seq<char>> },
    Chat { from: Seq<char>, text: Seq<char> },
    PrivateMessage { from: Seq<char>, content: Seq<char> },
    DecryptionFailed { from: Seq<char> },
    BadLogPayload { from: Seq<char> },
    DialFailed { peer: Seq<char> },
    ConnectedPeers { peers: Seq<Seq<char>> },
    GossipPeers { peers: Seq<Seq<char>> },
}

impl View for Notice {
    type V = NoticeView;

    open spec fn view(&self) -> NoticeView {
        match *self {
            Notice::LogUsage => NoticeView::LogUsage,
            Notice::DmUsage => NoticeView::DmUsage,
            Notice::UnknownCommand => NoticeView::UnknownCommand,
            Notice::InvalidPeerId => NoticeView::InvalidPeerId,
            Notice::PublicKeyMissing { peer } => NoticeView::PublicKeyMissing { peer: peer@ },
            Notice::EncryptionFailed { peer } => NoticeView::EncryptionFailed { peer: peer@ },
            Notice::ShowLog { entries } => NoticeView::ShowLog { entries: texts(entries@) },
            Notice::Chat { from, text } => NoticeView::Chat { from: from@, text: text@ },
            Notice::PrivateMessage { from, content } => NoticeView::PrivateMessage {
                from: from@,
                content: content@,
            },
            Notice::DecryptionFailed { from } => NoticeView::DecryptionFailed { from: from@ },
            Notice::BadLogPayload { from } => NoticeView::BadLogPayload { from: from@ },
            Notice::DialFailed { peer } => NoticeView::DialFailed { peer: peer@ },
            Notice::ConnectedPeers { peers } => NoticeView::ConnectedPeers { peers: texts(peers@) },
            Notice::GossipPeers { peers } => NoticeView::GossipPeers { peers: texts(peers@) },
        }
    }
}

/// How much a notice matters.
#[derive(Clone, Copy, Debug, PartialEq, Eq)]
pub enum Severity {
    Info,
    Error,
}

/// Each text as `{:?}` writes it, in order.
pub open spec fn quoted(items: Seq<Seq<char>>) -> Seq<Seq<char>> {
    Seq::new(items.len(), |i: int| debug_text(items[i]))
}

/// The line that a list of peers is reported with: a label, how many
/// there are, and their ids.
pub open spec fn peer_list_line(label: Seq<char>, peers: Seq<Seq<char>>) -> Seq<char> {
    label + decimal(peers.len()) + " - ["@ + joined(peers, ", "@) + "]"@
}

impl NoticeView {
    /// How much the notice matters: failures are errors, the rest is for
    /// information.
    pub open spec fn severity(self) -> Severity {
        match self {
            NoticeView::DecryptionFailed { .. }
            | NoticeView::BadLogPayload { .. }
            | NoticeView::DialFailed { .. } => Severity::Error,
            _ => Severity::Info,
        }
    }

    /// The line that tells the operator.
    pub open spec fn line(self) -> Seq<char> {
        match self {
            NoticeView::LogUsage => "Usage: /log <message>"@,
            NoticeView::DmUsage => "Usage: /dm <peer_id> <message>"@,
            NoticeView::UnknownCommand => "Unknown command. Try /peers, /log, or /show"@,
            NoticeView::InvalidPeerId => "Invalid Peer ID"@,
            NoticeView::PublicKeyMissing { peer } => "Public Key for "@ + peer
                + " not found. Wait for Identify exchange."@,
            NoticeView::EncryptionFailed { peer } => "Failed to encrypt message for "@ + peer,
            NoticeView::ShowLog { entries } => "Current Log: {"@ + joined(quoted(entries), ", "@)
                + "}"@,
            NoticeView::Chat { from, text } => "Got message: '"@ + text + "' from peer: "@ + from,
            NoticeView::PrivateMessage { from, content } => "*** PRIVATE MESSAGE from "@ + from
                + ": "@ + content + " ***"@,
            NoticeView::DecryptionFailed { from } => "Failed to decrypt message from "@ + from,
            NoticeView::BadLogPayload { from } => "Failed to deserialize CRDT state from "@ + from,
            NoticeView::DialFailed { peer } => "Dial error: "@ + peer,
            NoticeView::ConnectedPeers { peers } => peer_list_line("Connected Peers: "@, peers),
            NoticeView::GossipPeers { peers } => peer_list_line("Gossipsub Peers: "@, peers),
        }
    }
}

/// Writes the line that a list of peers is reported with.
fn render_peer_list(label: &str, peers: &Vec<String>) -> (line: String)
    ensures
        line@ == peer_list_line(label@, texts(peers@)),
{
    let mut line = String::from_str(label);
    push_decimal(&mut line, peers.len() as u64);
    line.append(" - [");
    let ids = join_from(peers, 0, ", ");
    assert(texts(peers@).skip(0) =~= texts(peers@));
    line.append(ids.as_str());
    line.append("]");
    line
}

/// A label followed by a name.
fn labelled(label: &str, name: &str) -> (line: String)
    ensures
        line@ == label@ + name@,
{
    let mut line = String::from_str(label);
    line.append(name);
    line
}

impl Notice {
    /// How much the notice matters.
    pub fn severity(&self) -> (severity: Severity)
        ensures
            severity == self@.severity(),
    {
        match self {
            Notice::DecryptionFailed { .. } => Severity::Error,
            Notice::BadLogPayload { .. } => Severity::Error,
            Notice::DialFailed { .. } => Severity::Error,
            _ => Severity::Info,
        }
    }

    /// The line that tells the operator.
    pub fn render(&self) -> (line: String)
        ensures
            line@ == self@.line(),
    {
        match self {
            Notice::LogUsage => String::from_str("Usage: /log <message>"),
            Notice::DmUsage => String::from_str("Usage: /dm <peer_id> <message>"),
            Notice::UnknownCommand => String::from_str(
                "Unknown command. Try /peers, /log, or /show",
            ),
            Notice::InvalidPeerId => String::from_str("Invalid Peer ID"),
            Notice::PublicKeyMissing { peer } => {
                let mut line = labelled("Public Key for ", peer.as_str());
                line.append(" not found. Wait for Identify exchange.");
                line
            },
            Notice::EncryptionFailed { peer } => labelled(
                "Failed to encrypt message for ",
                peer.as_str(),
            ),
            Notice::ShowLog { entries } => {
                let mut shown: Vec<String> = Vec::new();
                let mut i: usize = 0;
                while i < entries.len()
                    invariant
                        i <= entries.len(),
                        shown.len() == i,
                        forall|k: int| 0 <= k < i ==> shown[k]@ == debug_text(entries[k]@),
                    decreases entries.len() - i,
                {
                    shown.push(debug_quoted(entries[i].as_str()));
                    i += 1;
                }
                assert(texts(shown@) =~= quoted(texts(entries@)));
                assert(texts(shown@).skip(0) =~= texts(shown@));
                let mut line = labelled("Current Log: {", join_from(&shown, 0, ", ").as_str());
                line.append("}");
                line
            },
            Notice::Chat { from, text } => {
                let mut line = labelled("Got message: '", text.as_str());
                line.append("' from peer: ");
                line.append(from.as_str());
                line
            },
            Notice::PrivateMessage { from, content } => {
                let mut line = labelled("*** PRIVATE MESSAGE from ", from.as_str());
                line.append(": ");
                line.append(content.as_str());
                line.append(" ***");
                line
            },
            Notice::DecryptionFailed { from } => labelled(
                "Failed to decrypt message from ",
                from.as_str(),
            ),
            Notice::BadLogPayload { from } => labelled(
                "Failed to deserialize CRDT state from ",
                from.as_str(),
            ),
            Notice::DialFailed { peer } => labelled("Dial error: ", peer.as_str()),
            Notice::ConnectedPeers { peers } => render_peer_list("Connected Peers: ", peers),
            Notice::GossipPeers { peers } => render_peer_list("Gossipsub Peers: ", peers),
        }
    }
}

/// One thing for the program around the node to do. The node hands out
/// actions in the order in which they are to be performed.
#[derive(Clone, Debug, PartialEq, Eq)]
pub enum NodeAction {
    /// Write the snapshot file, replacing it as a whole.
    WriteSnapshot(SnapshotFile),
    /// Publish `payload` on `topic`.
    Publish { topic: Topic, payload: Vec<u8> },
    /// Write the envelope as JSON and publish it on the private topic.
    PublishDm(PrivateMessage),
    /// Keep `peer` as an explicit gossip peer.
    AddExplicitPeer { peer: String },
    /// Drop `peer` as an explicit gossip peer.
    RemoveExplicitPeer { peer: String },
    /// Dial `peer` at `address`, and report back if the dial cannot be
    /// started.
    Dial { peer: String, address: String },
    /// Broadcast a telemetry event.
    Emit(NetworkEvent),
    /// Tell the operator.
    Notify(Notice),
    /// Tell the operator which peers the transport is connected to and
    /// which peers gossip knows.
    ListPeers,
}

/// An action as a mathematical value.
pub enum NodeActionView {
    WriteSnapshot(SnapshotFileView),
    Publish { topic: Topic, payload: Seq<u8> },
    PublishDm(PrivateMessageView),
    AddExplicitPeer { peer: Seq<char> },
    RemoveExplicitPeer { peer: Seq<char> },
    Dial { peer: Seq<char>, address: Seq<char> },
    Emit(NetworkEventView),
    Notify(NoticeView),
    ListPeers,
}

impl View for NodeAction {
    type V = NodeActionView;

    open spec fn view(&self) -> NodeActionView {
        match *self {
            NodeAction::WriteSnapshot(file) => NodeActionView::WriteSnapshot(file@),
            NodeAction::Publish { topic, payload } => NodeActionView::Publish {
                topic,
                payload: payload@,
            },
            NodeAction::PublishDm(message) => NodeActionView::PublishDm(message@),
            NodeAction::AddExplicitPeer { peer } => NodeActionView::AddExplicitPeer { peer: peer@ },
            NodeAction::RemoveExplicitPeer { peer } => NodeActionView::RemoveExplicitPeer {
                peer: peer@,
            },
            NodeAction::Dial { peer, address } => NodeActionView::Dial {
                peer: peer@,
                address: address@,
            },
            NodeAction::Emit(event) => NodeActionView::Emit(event@),
            NodeAction::Notify(notice) => NodeActionView::Notify(notice@),
            NodeAction::ListPeers => NodeActionView::ListPeers,
        }
    }
}

/// The views of a sequence of actions, in order.
pub open spec fn action_views(actions: Seq<NodeAction>) -> Seq<NodeActionView> {
    Seq::new(actions.len(), |i: int| actions[i]@)
}

} // verus!
