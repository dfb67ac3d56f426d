use ghostmesh::action::{Notice, Severity, Topic};

fn strings(items: &[&str]) -> Vec<String> {
    items.iter().map(|s| s.to_string()).collect()
}

#[test]
fn topics_have_their_names() {
    assert_eq!(Topic::Global.name(), "ghostmesh-global");
    assert_eq!(Topic::Crdt.name(), "ghostmesh-crdt");
    assert_eq!(Topic::Private.name(), "ghostmesh-private");
}

#[test]
fn topic_hashes_are_classified() {
    assert_eq!(Topic::of("ghostmesh-crdt"), Topic::Crdt);
    assert_eq!(Topic::of("ghostmesh-private"), Topic::Private);
    assert_eq!(Topic::of("ghostmesh-global"), Topic::Global);
    assert_eq!(Topic::of("anything else"), Topic::Global);
    assert_eq!(Topic::of(""), Topic::Global);
}

#[test]
fn private_message_line() {
    let notice =
        Notice::PrivateMessage { from: "12D3A".to_string(), content: "secret".to_string() };
    assert_eq!(notice.render(), "*** PRIVATE MESSAGE from 12D3A: secret ***");
    assert_eq!(notice.severity(), Severity::Info);
}

#[test]
fn peer_list_lines() {
    let one = Notice::ConnectedPeers { peers: strings(&["12D3B"]) };
    assert_eq!(one.render(), "Connected Peers: 1 - [12D3B]");
    let none = Notice::ConnectedPeers { peers: vec![] };
    assert_eq!(none.render(), "Connected Peers: 0 - []");
    let two = Notice::GossipPeers { peers: strings(&["a", "b"]) };
    assert_eq!(two.render(), "Gossipsub Peers: 2 - [a, b]");
}

#[test]
fn show_log_line() {
    let notice = Notice::ShowLog { entries: strings(&["hello", "world"]) };
    assert_eq!(notice.render(), "Current Log: {\"hello\", \"world\"}");
    let empty = Notice::ShowLog { entries: vec![] };
    assert_eq!(empty.render(), "Current Log: {}");
    let escaped = Notice::ShowLog { entries: strings(&["a\"b\n"]) };
    assert_eq!(escaped.render(), "Current Log: {\"a\\\"b\\n\"}");
}

#[test]
fn other_lines() {
    assert_eq!(Notice::LogUsage.render(), "Usage: /log <message>");
    assert_eq!(Notice::DmUsage.render(), "Usage: /dm <peer_id> <message>");
    assert_eq!(Notice::UnknownCommand.render(), "Unknown command. Try /peers, /log, or /show");
    assert_eq!(Notice::InvalidPeerId.render(), "Invalid Peer ID");
    assert_eq!(
        Notice::PublicKeyMissing { peer: "p".to_string() }.render(),
        "Public Key for p not found. Wait for Identify exchange."
    );
    assert_eq!(
        Notice::EncryptionFailed { peer: "p".to_string() }.render(),
        "Failed to encrypt message for p"
    );
    assert_eq!(
        Notice::Chat { from: "p".to_string(), text: "hi".to_string() }.render(),
        "Got message: 'hi' from peer: p"
    );
    assert_eq!(
        Notice::DecryptionFailed { from: "p".to_string() }.render(),
        "Failed to decrypt message from p"
    );
    assert_eq!(
        Notice::BadLogPayload { from: "p".to_string() }.render(),
        "Failed to deserialize CRDT state from p"
    );
    assert_eq!(Notice::DialFailed { peer: "p".to_string() }.render(), "Dial error: p");
}

#[test]
fn failures_are_errors() {
    assert_eq!(Notice::DialFailed { peer: "p".to_string() }.severity(), Severity::Error);
    assert_eq!(Notice::DecryptionFailed { from: "p".to_string() }.severity(), Severity::Error);
    assert_eq!(Notice::BadLogPayload { from: "p".to_string() }.severity(), Severity::Error);
    assert_eq!(Notice::LogUsage.severity(), Severity::Info);
    assert_eq!(Notice::InvalidPeerId.severity(), Severity::Info);
    assert_eq!(Notice::ShowLog { entries: vec![] }.severity(), Severity::Info);
}
