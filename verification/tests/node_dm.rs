use ghostmesh::action::{NodeAction, Notice};
use ghostmesh::command::NodeCommand;
use ghostmesh::dm::{seal_dm, DmError, DmKeys, PrivateMessage, PROTOTYPE_NONCE};
use ghostmesh::identity::load_or_generate_keypair;
use ghostmesh::node::{Node, NodeEvent};
use ghostmesh::state::DmEntry;
use ghostmesh::telemetry::NetworkEvent;

fn peer_id() -> String {
    load_or_generate_keypair(1, None).unwrap().identity.peer_id
}

fn node(id: &str) -> Node {
    Node::start(4001, id.to_string(), None, DmKeys::prototype()).unwrap()
}

fn private(source: &str, envelope: Option<PrivateMessage>, now: u64) -> NodeEvent {
    NodeEvent::Message {
        source: source.to_string(),
        topic: "ghostmesh-private".to_string(),
        payload: b"{}".to_vec(),
        envelope,
        now,
    }
}

#[test]
fn dm_to_a_malformed_peer_id_is_refused() {
    let n = node("me");
    assert_eq!(
        n.on_dm_request("not-a-peer-id", "hi"),
        vec![NodeAction::Notify(Notice::InvalidPeerId)]
    );
    assert_eq!(n.on_dm_request("", "hi"), vec![NodeAction::Notify(Notice::InvalidPeerId)]);
}

#[test]
fn dm_without_a_public_key_is_refused() {
    let n = node("me");
    let b = peer_id();
    assert_eq!(
        n.on_dm_request(&b, "hi"),
        vec![NodeAction::Notify(Notice::PublicKeyMissing { peer: b.clone() })]
    );
}

#[test]
fn dm_to_an_identified_peer_is_published() {
    let mut n = node("me");
    let b = peer_id();
    n.on_identified(b.clone(), vec![1, 2, 3]);
    let typed = n.on_stdin_line(&format!("/dm {}  top   secret", b));
    let expected = seal_dm(&DmKeys::prototype(), &b, "top secret").unwrap();
    assert_eq!(typed, vec![NodeAction::PublishDm(expected.clone())]);
    let web = n.handle(NodeEvent::Command(NodeCommand::SendDm {
        to: b.clone(),
        content: "top secret".to_string(),
    }));
    assert_eq!(web, vec![NodeAction::PublishDm(expected)]);
}

#[test]
fn refuse_dm_and_dispatch_dm_take_the_results() {
    let mut n = node("me");
    assert_eq!(n.refuse_dm("x", None), Some(Notice::InvalidPeerId));
    assert_eq!(
        n.refuse_dm("x", Some("canon".to_string())),
        Some(Notice::PublicKeyMissing { peer: "x".to_string() })
    );
    n.on_identified("canon".to_string(), vec![9]);
    assert_eq!(n.refuse_dm("x", Some("canon".to_string())), None);
    assert_eq!(
        Node::dispatch_dm("x", None),
        vec![NodeAction::Notify(Notice::EncryptionFailed { peer: "x".to_string() })]
    );
    let m = PrivateMessage {
        to: "x".to_string(),
        ciphertext: "c".to_string(),
        nonce: "n".to_string(),
    };
    assert_eq!(Node::dispatch_dm("x", Some(m.clone())), vec![NodeAction::PublishDm(m)]);
}

#[test]
fn a_dm_travels_from_a_to_b() {
    let a_id = peer_id();
    let b_id = peer_id();
    let mut a = node(&a_id);
    let mut b = node(&b_id);
    a.on_identified(b_id.clone(), vec![0]);
    let sent = a.on_stdin_line(&format!("/dm {} secret", b_id));
    let envelope = match &sent[0] {
        NodeAction::PublishDm(m) => m.clone(),
        other => panic!("unexpected action {:?}", other),
    };
    let received = b.handle(private(&a_id, Some(envelope), 1700000000));
    assert_eq!(
        received,
        vec![
            NodeAction::Notify(Notice::PrivateMessage {
                from: a_id.clone(),
                content: "secret".to_string()
            }),
            NodeAction::Emit(NetworkEvent::MessageReceived {
                from: a_id.clone(),
                to: b_id.clone(),
                protocol: "ghostmesh-private".to_string(),
            }),
        ]
    );
    assert_eq!(
        received[0].clone(),
        NodeAction::Notify(Notice::PrivateMessage {
            from: a_id.clone(),
            content: "secret".to_string()
        })
    );
    assert_eq!(
        b.state().snapshot().dms,
        vec![DmEntry { from: a_id, content: "secret".to_string(), timestamp: 1700000000 }]
    );
}

#[test]
fn a_dm_for_somebody_else_is_dropped_unopened() {
    let mut n = node("me");
    let envelope = seal_dm(&DmKeys::prototype(), "somebody-else", "secret").unwrap();
    assert_eq!(n.handle(private("a", Some(envelope), 5)), Vec::<NodeAction>::new());
    assert_eq!(n.state().snapshot().dms, Vec::<DmEntry>::new());
    // Even one that would not open leaves no trace and no notice.
    let broken = PrivateMessage {
        to: "somebody-else".to_string(),
        ciphertext: "!!".to_string(),
        nonce: "!!".to_string(),
    };
    assert_eq!(n.on_envelope("a", &broken, 5), Vec::<NodeAction>::new());
    assert_eq!(n.state().snapshot().dms, Vec::<DmEntry>::new());
}

#[test]
fn recipient_is_compared_as_text() {
    let mut n = node("Me");
    let envelope = seal_dm(&DmKeys::prototype(), "me", "secret").unwrap();
    assert_eq!(n.on_envelope("a", &envelope, 5), Vec::<NodeAction>::new());
    let envelope = seal_dm(&DmKeys::prototype(), "Me ", "secret").unwrap();
    assert_eq!(n.on_envelope("a", &envelope, 5), Vec::<NodeAction>::new());
    assert_eq!(n.state().snapshot().dms, Vec::<DmEntry>::new());
}

#[test]
fn a_dm_that_does_not_authenticate_is_dropped_with_a_notice() {
    let mut n = node("me");
    let other = DmKeys::new([5u8; 32], PROTOTYPE_NONCE);
    let envelope = seal_dm(&other, "me", "secret").unwrap();
    assert_eq!(
        n.handle(private("a", Some(envelope), 5)),
        vec![NodeAction::Notify(Notice::DecryptionFailed { from: "a".to_string() })]
    );
    assert_eq!(n.state().snapshot().dms, Vec::<DmEntry>::new());
}

#[test]
fn a_malformed_envelope_for_me_is_dropped_silently() {
    let mut n = node("me");
    let bad = PrivateMessage {
        to: "me".to_string(),
        ciphertext: "AAAA".to_string(),
        nonce: "AAAA".to_string(),
    };
    assert_eq!(n.handle(private("a", Some(bad), 5)), Vec::<NodeAction>::new());
    assert_eq!(n.state().snapshot().dms, Vec::<DmEntry>::new());
}

#[test]
fn a_payload_that_is_no_envelope_is_dropped() {
    let mut n = node("me");
    assert_eq!(n.handle(private("a", None, 5)), Vec::<NodeAction>::new());
}

#[test]
fn deliver_dm_takes_what_opening_gave() {
    let mut n = node("me");
    let actions = n.deliver_dm("a", Ok("hello".to_string()), 42);
    assert_eq!(actions.len(), 2);
    assert_eq!(
        n.state().snapshot().dms,
        vec![DmEntry { from: "a".to_string(), content: "hello".to_string(), timestamp: 42 }]
    );
    assert_eq!(
        n.deliver_dm("a", Err(DmError::Rejected), 43),
        vec![NodeAction::Notify(Notice::DecryptionFailed { from: "a".to_string() })]
    );
    assert_eq!(n.deliver_dm("a", Err(DmError::Malformed), 44), Vec::<NodeAction>::new());
    assert_eq!(n.state().snapshot().dms.len(), 1);
}

#[test]
fn inbox_keeps_the_order_of_arrival() {
    let mut n = node("me");
    n.deliver_dm("a", Ok("one".to_string()), 10);
    n.deliver_dm("b", Ok("two".to_string()), 5);
    let dms = n.state().snapshot().dms;
    assert_eq!(dms[0].content, "one");
    assert_eq!(dms[1].content, "two");
}
