use ghostmesh::ble::{ble_sighting, ble_startup, is_mesh_peer, no_adapters_warning, BleStartup};
use ghostmesh::command::NodeCommand;
use ghostmesh::http::{http_port, log_command, reply, ApiCall, HttpReply, MAX_LOG_BODY};
use ghostmesh::transport::{
    listen_address, message_id, message_id_of, protocol_version, HEARTBEAT_SECS,
    PING_INTERVAL_SECS, PING_TIMEOUT_SECS, TELEMETRY_CAPACITY,
};

#[test]
fn web_port_is_the_next_port() {
    assert_eq!(http_port(4001), Some(4002));
    assert_eq!(http_port(0), Some(1));
    assert_eq!(http_port(65534), Some(65535));
    assert_eq!(http_port(65535), None);
}

#[test]
fn log_bodies_up_to_16_kib_are_taken() {
    assert_eq!(MAX_LOG_BODY, 16 * 1024);
}

#[test]
fn log_body_becomes_a_log_command() {
    assert_eq!(log_command(b"abc"), NodeCommand::Log("abc".to_string()));
    assert_eq!(log_command(b""), NodeCommand::Log(String::new()));
    assert_eq!(log_command(b"a\xffb"), NodeCommand::Log("a\u{FFFD}b".to_string()));
}

#[test]
fn replies() {
    assert_eq!(reply(ApiCall::Log, true), HttpReply { status: 200, body: "Logged" });
    assert_eq!(reply(ApiCall::Dm, true), HttpReply { status: 200, body: "Sent" });
    assert_eq!(reply(ApiCall::Log, false), HttpReply { status: 500, body: "Internal Error" });
    assert_eq!(reply(ApiCall::Dm, false), HttpReply { status: 500, body: "Internal Error" });
}

#[test]
fn no_adapter_disables_bluetooth() {
    assert_eq!(ble_startup(0), BleStartup::Disabled);
    assert_eq!(ble_startup(1), BleStartup::Scan);
    assert_eq!(ble_startup(3), BleStartup::Scan);
    assert!(no_adapters_warning().contains("No Bluetooth adapters found"));
    assert_eq!(
        no_adapters_warning(),
        "No Bluetooth adapters found. BLE features will be disabled."
    );
}

#[test]
fn mesh_names_are_recognised() {
    assert!(is_mesh_peer("GhostMesh"));
    assert!(is_mesh_peer("my GhostMesh-4001"));
    assert!(!is_mesh_peer("ghostmesh"));
    assert!(!is_mesh_peer("Ghost Mesh"));
    assert!(!is_mesh_peer(""));
}

#[test]
fn sightings_are_reported_for_mesh_names_only() {
    assert_eq!(
        ble_sighting(Some("GhostMesh-B"), "AA:BB"),
        Some("Found GhostMesh Peer via BLE: GhostMesh-B (AA:BB)".to_string())
    );
    assert_eq!(ble_sighting(Some("Headphones"), "AA:BB"), None);
    assert_eq!(ble_sighting(None, "AA:BB"), None);
}

#[test]
fn transport_settings() {
    assert_eq!(protocol_version(), "ghostmesh/1.0.0");
    assert_eq!(HEARTBEAT_SECS, 10);
    assert_eq!(PING_INTERVAL_SECS, 60);
    assert_eq!(PING_TIMEOUT_SECS, 30);
    assert_eq!(TELEMETRY_CAPACITY, 100);
    assert_eq!(listen_address(4001), "/ip4/0.0.0.0/tcp/4001");
    assert_eq!(listen_address(0), "/ip4/0.0.0.0/tcp/0");
}

#[test]
fn message_ids_are_decimal_hashes() {
    assert_eq!(message_id_of(0), "0");
    assert_eq!(message_id_of(18446744073709551615), "18446744073709551615");
    let id = message_id(b"payload");
    assert!(!id.is_empty());
    assert!(id.chars().all(|c| c.is_ascii_digit()));
    assert_eq!(id.parse::<u64>().unwrap().to_string(), id);
    assert_eq!(message_id(b"payload"), id);
    assert_ne!(message_id(b"payloae"), id);
}

#[test]
fn equal_payloads_have_equal_ids() {
    let one: Vec<u8> = b"the same payload".to_vec();
    let other: Vec<u8> = String::from("the same payload").into_bytes();
    assert_eq!(message_id(&one), message_id(&other));
    assert_eq!(message_id(b""), message_id(&[]));
    assert_ne!(message_id(b""), message_id(b"\0"));
}
