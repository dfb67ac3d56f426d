use ghostmesh::action::{NodeAction, Notice};
use ghostmesh::dm::DmKeys;
use ghostmesh::node::{Discovery, Node, NodeEvent};
use ghostmesh::telemetry::NetworkEvent;

fn node() -> Node {
    Node::start(4001, "me".to_string(), None, DmKeys::prototype()).unwrap()
}

fn found(peer: &str, address: &str, connected: bool) -> Discovery {
    Discovery { peer: peer.to_string(), address: address.to_string(), connected }
}

fn add(peer: &str) -> NodeAction {
    NodeAction::AddExplicitPeer { peer: peer.to_string() }
}

fn dial(peer: &str, address: &str) -> NodeAction {
    NodeAction::Dial { peer: peer.to_string(), address: address.to_string() }
}

fn dials_to(actions: &[NodeAction], target: &str) -> usize {
    actions
        .iter()
        .filter(|a| matches!(a, NodeAction::Dial { peer, .. } if peer == target))
        .count()
}

#[test]
fn discovered_peer_is_added_and_dialed() {
    let mut n = node();
    let actions = n.on_discovered(&vec![found("p", "/ip4/10.0.0.2/tcp/4002", false)]);
    assert_eq!(actions, vec![add("p"), dial("p", "/ip4/10.0.0.2/tcp/4002")]);
    assert!(n.is_dialing("p"));
}

#[test]
fn a_burst_dials_each_peer_once() {
    let mut n = node();
    let burst = vec![
        found("p", "a1", false),
        found("q", "b1", false),
        found("p", "a2", false),
        found("p", "a3", false),
        found("q", "b2", false),
    ];
    let actions = n.handle(NodeEvent::Discovered(burst));
    assert_eq!(
        actions,
        vec![add("p"), dial("p", "a1"), add("q"), dial("q", "b1"), add("p"), add("p"), add("q")]
    );
    assert_eq!(dials_to(&actions, "p"), 1);
    assert_eq!(dials_to(&actions, "q"), 1);
}

#[test]
fn a_pending_peer_is_not_dialed_again() {
    let mut n = node();
    n.on_discovered(&vec![found("p", "a1", false)]);
    let again = n.on_discovered(&vec![found("p", "a1", false), found("p", "a2", false)]);
    assert_eq!(again, vec![add("p"), add("p")]);
    assert_eq!(dials_to(&again, "p"), 0);
}

#[test]
fn a_connected_peer_is_not_dialed() {
    let mut n = node();
    let actions = n.on_discovered(&vec![found("p", "a1", true)]);
    assert_eq!(actions, vec![add("p")]);
    assert!(!n.is_dialing("p"));
}

#[test]
fn an_empty_burst_does_nothing() {
    let mut n = node();
    assert_eq!(n.on_discovered(&Vec::new()), Vec::<NodeAction>::new());
}

#[test]
fn a_failed_dial_allows_a_retry() {
    let mut n = node();
    n.on_discovered(&vec![found("p", "a1", false)]);
    let failed = n.handle(NodeEvent::DialFailed { peer: "p".to_string() });
    assert_eq!(failed, vec![NodeAction::Notify(Notice::DialFailed { peer: "p".to_string() })]);
    assert!(!n.is_dialing("p"));
    let retry = n.on_discovered(&vec![found("p", "a1", false)]);
    assert_eq!(dials_to(&retry, "p"), 1);
}

#[test]
fn established_connection_lists_the_peer_and_settles_the_dial() {
    let mut n = node();
    n.on_discovered(&vec![found("p", "a1", false)]);
    let actions = n.handle(NodeEvent::ConnectionEstablished { peer: "p".to_string() });
    assert_eq!(
        actions,
        vec![NodeAction::Emit(NetworkEvent::PeerConnected { peer_id: "p".to_string() })]
    );
    assert!(!n.is_dialing("p"));
    assert_eq!(n.state().snapshot().peers, vec!["p".to_string()]);
    n.on_connection_established("p");
    assert_eq!(n.state().snapshot().peers, vec!["p".to_string()]);
}

#[test]
fn closed_connection_removes_the_peer() {
    let mut n = node();
    n.on_connection_established("p");
    n.on_connection_established("q");
    let actions = n.handle(NodeEvent::ConnectionClosed { peer: "p".to_string() });
    assert_eq!(
        actions,
        vec![NodeAction::Emit(NetworkEvent::PeerDisconnected { peer_id: "p".to_string() })]
    );
    assert_eq!(n.state().snapshot().peers, vec!["q".to_string()]);
}

#[test]
fn connection_error_with_a_peer_is_a_lost_connection() {
    let mut n = node();
    n.on_discovered(&vec![found("p", "a1", false)]);
    n.on_connection_established("p");
    let actions = n.handle(NodeEvent::ConnectionError { peer: Some("p".to_string()) });
    assert_eq!(
        actions,
        vec![NodeAction::Emit(NetworkEvent::PeerDisconnected { peer_id: "p".to_string() })]
    );
    assert_eq!(n.state().snapshot().peers, Vec::<String>::new());
    assert!(!n.is_dialing("p"));
}

#[test]
fn connection_error_without_a_peer_does_nothing() {
    let mut n = node();
    n.on_connection_established("p");
    assert_eq!(n.handle(NodeEvent::ConnectionError { peer: None }), Vec::<NodeAction>::new());
    assert_eq!(n.state().snapshot().peers, vec!["p".to_string()]);
}

#[test]
fn expired_peers_stop_being_explicit() {
    let mut n = node();
    let actions = n.handle(NodeEvent::Expired(vec!["p".to_string(), "q".to_string()]));
    assert_eq!(
        actions,
        vec![
            NodeAction::RemoveExplicitPeer { peer: "p".to_string() },
            NodeAction::RemoveExplicitPeer { peer: "q".to_string() },
        ]
    );
}

#[test]
fn identify_keeps_the_public_key() {
    let mut n = node();
    let actions =
        n.handle(NodeEvent::Identified { peer: "p".to_string(), public_key: vec![1, 2, 3] });
    assert_eq!(actions, Vec::<NodeAction>::new());
    assert!(n.state().knows_public_key("p"));
    n.on_connection_lost("p");
    assert!(n.state().knows_public_key("p"));
}

#[test]
fn listed_peers_are_reported() {
    let mut n = node();
    let actions = n.handle(NodeEvent::PeersListed {
        connected: vec!["b".to_string()],
        gossip: vec!["b".to_string(), "c".to_string()],
    });
    assert_eq!(
        actions,
        vec![
            NodeAction::Notify(Notice::ConnectedPeers { peers: vec!["b".to_string()] }),
            NodeAction::Notify(Notice::GossipPeers {
                peers: vec!["b".to_string(), "c".to_string()]
            }),
        ]
    );
}
