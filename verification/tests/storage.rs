use crdts::GSet;
use ghostmesh::storage::{get_storage_path, load_log, save_log, StorageError};

#[test]
fn storage_path_names_the_port() {
    assert_eq!(get_storage_path(4001), "data/storage_4001.json");
    assert_eq!(get_storage_path(0), "data/storage_0.json");
    assert_eq!(get_storage_path(65535), "data/storage_65535.json");
}

#[test]
fn missing_snapshot_gives_empty_log() {
    let log = load_log(None).unwrap();
    assert_eq!(log, GSet::new());
}

#[test]
fn snapshot_round_trip() {
    let mut log: GSet<String> = GSet::new();
    log.insert("hello".to_string());
    log.insert("world".to_string());
    log.insert("line\nbreak \"quoted\" \u{1F600}".to_string());
    let file = save_log(4002, &log);
    assert_eq!(file.path, "data/storage_4002.json");
    let back = load_log(Some(&file.text)).unwrap();
    assert_eq!(back, log);
}

#[test]
fn snapshot_text_is_indented_json() {
    let mut log: GSet<String> = GSet::new();
    log.insert("hello".to_string());
    let file = save_log(1, &log);
    assert_eq!(file.text, "{\n  \"value\": [\n    \"hello\"\n  ]\n}");
}

#[test]
fn corrupt_snapshot_is_a_parse_error() {
    assert_eq!(load_log(Some("{not json")).unwrap_err(), StorageError::Parse);
    assert_eq!(load_log(Some("[1, 2]")).unwrap_err(), StorageError::Parse);
}
