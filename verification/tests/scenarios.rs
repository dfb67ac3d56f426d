use ghostmesh::action::{NodeAction, Notice, Topic};
use ghostmesh::ble::{ble_startup, no_adapters_warning, BleStartup};
use ghostmesh::dm::DmKeys;
use ghostmesh::http::{log_command, reply, ApiCall};
use ghostmesh::identity::load_or_generate_keypair;
use ghostmesh::node::{Discovery, Node, NodeEvent};
use ghostmesh::state::DmEntry;

fn start(port: u16, stored: Option<&str>) -> (Node, String) {
    let id = load_or_generate_keypair(port, None).unwrap().identity.peer_id;
    let node = Node::start(port, id.clone(), stored, DmKeys::prototype()).unwrap();
    (node, id)
}

fn log_payload(actions: &[NodeAction]) -> Vec<u8> {
    for action in actions {
        if let NodeAction::Publish { topic: Topic::Crdt, payload } = action {
            return payload.clone();
        }
    }
    panic!("no log was published");
}

fn snapshot_text(actions: &[NodeAction]) -> String {
    for action in actions {
        if let NodeAction::WriteSnapshot(file) = action {
            return file.text.clone();
        }
    }
    panic!("no snapshot was written");
}

fn lines(actions: &[NodeAction]) -> Vec<String> {
    let mut lines = Vec::new();
    for action in actions {
        if let NodeAction::Notify(notice) = action {
            lines.push(notice.render());
        }
    }
    lines
}

fn deliver_log(to: &mut Node, from: &str, payload: Vec<u8>) -> Vec<NodeAction> {
    to.handle(NodeEvent::Message {
        source: from.to_string(),
        topic: Topic::Crdt.name().to_string(),
        payload,
        envelope: None,
        now: 0,
    })
}

#[test]
fn a_discovers_b_and_lists_it() {
    let (mut a, _a_id) = start(4001, None);
    let (_b, b_id) = start(4002, None);
    let found = Discovery {
        peer: b_id.clone(),
        address: "/ip4/192.168.1.7/tcp/4002".to_string(),
        connected: false,
    };
    let actions = a.handle(NodeEvent::Discovered(vec![found]));
    assert_eq!(
        actions[1],
        NodeAction::Dial { peer: b_id.clone(), address: "/ip4/192.168.1.7/tcp/4002".to_string() }
    );
    a.handle(NodeEvent::ConnectionEstablished { peer: b_id.clone() });
    assert_eq!(a.handle(NodeEvent::StdinLine("/peers".to_string())), vec![NodeAction::ListPeers]);
    let listed = a.handle(NodeEvent::PeersListed {
        connected: vec![b_id.clone()],
        gossip: vec![b_id.clone()],
    });
    let printed = lines(&listed);
    assert_eq!(printed[0], format!("Connected Peers: 1 - [{}]", b_id));
    assert!(printed[0].starts_with("Connected Peers: 1"));
    assert!(printed[0].contains(&b_id));
    assert_eq!(a.state().snapshot().peers, vec![b_id]);
}

#[test]
fn hello_and_world_reach_both_nodes_and_survive_a_restart() {
    let (mut a, a_id) = start(4001, None);
    let (mut b, b_id) = start(4002, None);
    let from_a = a.handle(NodeEvent::StdinLine("/log hello".to_string()));
    let from_b = b.handle(NodeEvent::StdinLine("/log world".to_string()));
    deliver_log(&mut a, &b_id, log_payload(&from_b));
    let b_merged = deliver_log(&mut b, &a_id, log_payload(&from_a));

    let shown = "Current Log: {\"hello\", \"world\"}".to_string();
    assert_eq!(lines(&a.handle(NodeEvent::StdinLine("/show".to_string()))), vec![shown.clone()]);
    assert_eq!(lines(&b.handle(NodeEvent::StdinLine("/show".to_string()))), vec![shown.clone()]);

    // B stops; what it wrote last is what it finds when it starts again.
    let on_disk = snapshot_text(&b_merged);
    let mut b_again = Node::start(4002, b_id, Some(&on_disk), DmKeys::prototype()).unwrap();
    assert_eq!(
        lines(&b_again.handle(NodeEvent::StdinLine("/show".to_string()))),
        vec![shown]
    );
    assert_eq!(b_again.state().log(), a.state().log());
}

#[test]
fn a_posted_log_entry_shows_in_the_state_of_the_other_node() {
    let (mut a, a_id) = start(4001, None);
    let (mut b, _b_id) = start(4002, None);
    let command = log_command(b"abc");
    let actions = a.handle(NodeEvent::Command(command));
    let answer = reply(ApiCall::Log, true);
    assert_eq!(answer.status, 200);
    assert_eq!(answer.body, "Logged");
    deliver_log(&mut b, &a_id, log_payload(&actions));
    assert!(b.state().snapshot().log.contains(&"abc".to_string()));
}

#[test]
fn a_direct_message_is_printed_and_kept_by_its_recipient() {
    let (mut a, a_id) = start(4001, None);
    let (mut b, b_id) = start(4002, None);
    a.handle(NodeEvent::Identified { peer: b_id.clone(), public_key: vec![8, 1, 18, 32] });
    let sent = a.handle(NodeEvent::StdinLine(format!("/dm {} secret", b_id)));
    let envelope = match &sent[0] {
        NodeAction::PublishDm(envelope) => envelope.clone(),
        other => panic!("unexpected action {:?}", other),
    };
    assert_eq!(envelope.to, b_id);
    let received = b.handle(NodeEvent::Message {
        source: a_id.clone(),
        topic: Topic::Private.name().to_string(),
        payload: Vec::new(),
        envelope: Some(envelope),
        now: 1_700_000_000,
    });
    assert_eq!(lines(&received), vec![format!("*** PRIVATE MESSAGE from {}: secret ***", a_id)]);
    assert_eq!(
        b.state().snapshot().dms,
        vec![DmEntry { from: a_id, content: "secret".to_string(), timestamp: 1_700_000_000 }]
    );
    assert_eq!(
        received[0],
        NodeAction::Notify(Notice::PrivateMessage {
            from: b.state().snapshot().dms[0].from.clone(),
            content: "secret".to_string()
        })
    );
}

#[test]
fn a_node_without_bluetooth_warns_and_goes_on() {
    assert_eq!(ble_startup(0), BleStartup::Disabled);
    assert!(no_adapters_warning().contains("No Bluetooth adapters found"));
    let (mut c, _id) = start(4003, None);
    assert_eq!(c.handle(NodeEvent::StdinLine("/log still here".to_string())).len(), 3);
}
