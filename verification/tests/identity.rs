use ghostmesh::identity::{get_identity_path, load_or_generate_keypair, IdentityError};

#[test]
fn identity_path_names_the_port() {
    assert_eq!(get_identity_path(4001), ".key/identity_4001.key");
    assert_eq!(get_identity_path(0), ".key/identity_0.key");
}

#[test]
fn first_start_mints_and_stores() {
    let plan = load_or_generate_keypair(4001, None).unwrap();
    assert_eq!(plan.write_to, Some(".key/identity_4001.key".to_string()));
    assert!(!plan.identity.encoding.is_empty());
    assert!(plan.identity.peer_id.starts_with("12D3KooW"));
}

#[test]
fn second_start_keeps_the_identity() {
    let first = load_or_generate_keypair(4001, None).unwrap();
    let second = load_or_generate_keypair(4001, Some(first.identity.encoding.clone())).unwrap();
    assert_eq!(second.identity, first.identity);
    assert_eq!(second.write_to, None);
    let third = load_or_generate_keypair(4001, Some(first.identity.encoding.clone())).unwrap();
    assert_eq!(third.identity.peer_id, first.identity.peer_id);
    assert_eq!(third.write_to, None);
}

#[test]
fn fresh_identities_differ() {
    let a = load_or_generate_keypair(1, None).unwrap();
    let b = load_or_generate_keypair(1, None).unwrap();
    assert_ne!(a.identity.peer_id, b.identity.peer_id);
}

#[test]
fn corrupt_identity_file_is_an_error() {
    assert_eq!(load_or_generate_keypair(1, Some(vec![1, 2, 3])), Err(IdentityError::Corrupt));
    assert_eq!(load_or_generate_keypair(1, Some(Vec::new())), Err(IdentityError::Corrupt));
    let mut bytes = load_or_generate_keypair(1, None).unwrap().identity.encoding;
    bytes.truncate(10);
    assert_eq!(load_or_generate_keypair(1, Some(bytes)), Err(IdentityError::Corrupt));
}

#[test]
fn a_start_without_a_file_always_succeeds() {
    for port in 0..20u16 {
        let plan = load_or_generate_keypair(port, None).unwrap();
        let again = load_or_generate_keypair(port, Some(plan.identity.encoding.clone()));
        assert_eq!(again.unwrap().identity.peer_id, plan.identity.peer_id);
    }
}
