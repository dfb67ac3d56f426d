//! Telemetry: what a node reports about itself to whoever watches it.

use vstd::prelude::*;

verus! {

/// One telemetry event. Events are broadcast and not kept.
#[derive(Clone, Debug, PartialEq, Eq)]
pub enum NetworkEvent {
    PeerConnected { peer_id: String },
    PeerDisconnected { peer_id: String },
    MessageSent { from: String, to: String, protocol: String },
    MessageReceived { from: String, to: String, protocol: String },
    LogEntry { from: String, content: String },
}

/// A telemetry event as a mathematical value.
pub enum NetworkEventView {
    PeerConnected { peer_id: Seq<char> },
    PeerDisconnected { peer_id: Seq<char> },
    MessageSent { from: Seq<char>, to: Seq<char>, protocol: Seq<char> },
    MessageReceived { from: Seq<char>, to: Seq<char>, protocol: Seq<char> },
    LogEntry { from: Seq<char>, content: Seq<char> },
}

impl View for NetworkEvent {
    type V = NetworkEventView;

    open spec fn view(&self) -> NetworkEventView {
        match *self {
            NetworkEvent::PeerConnected { peer_id } => NetworkEventView::PeerConnected {
                peer_id: peer_id@,
            },
            NetworkEvent::PeerDisconnected { peer_id } => NetworkEventView::PeerDisconnected {
                peer_id: peer_id@,
            },
            NetworkEvent::MessageSent { from, to, protocol } => NetworkEventView::MessageSent {
                from: from@,
                to: to@,
                protocol: protocol@,
            },
            NetworkEvent::MessageReceived {
                from,
                to,
                protocol,
            } => NetworkEventView::MessageReceived { from: from@, to: to@, protocol: protocol@ },
            NetworkEvent::LogEntry { from, content } => NetworkEventView::LogEntry {
                from: from@,
                content: content@,
            },
        }
    }
}

} // verus!
