use gossip_chat::directory::PeerDirectory;
use gossip_chat::identity::NodeIdentity;

fn id(tag: u8) -> NodeIdentity {
    let mut bytes = [0u8; 32];
    bytes[31] = tag;
    NodeIdentity::from_bytes(bytes)
}

#[test]
fn new_directory_is_empty() {
    let directory = PeerDirectory::new();
    assert_eq!(directory.lookup(&id(1)), None);
    assert!(directory.snapshot_values().is_empty());
}

#[test]
fn the_latest_name_wins() {
    let mut directory = PeerDirectory::new();
    directory.record(id(1), "A".to_string());
    directory.record(id(1), "B".to_string());
    assert_eq!(directory.lookup(&id(1)), Some(&"B".to_string()));
    assert_eq!(directory.snapshot_values(), vec!["B".to_string()]);
}

#[test]
fn distinct_identities_lose_no_update() {
    let mut directory = PeerDirectory::new();
    for tag in 0..200u8 {
        directory.record(id(tag), format!("peer-{}", tag));
    }
    for tag in 0..200u8 {
        assert_eq!(directory.lookup(&id(tag)), Some(&format!("peer-{}", tag)));
    }
    assert_eq!(directory.snapshot_values().len(), 200);
}

#[test]
fn an_identity_never_recorded_is_absent() {
    let mut directory = PeerDirectory::new();
    directory.record(id(1), "alice".to_string());
    assert_eq!(directory.lookup(&id(2)), None);
}

#[test]
fn identities_differ_in_any_byte() {
    let mut first = [7u8; 32];
    let mut second = [7u8; 32];
    first[0] = 1;
    second[0] = 2;
    let mut directory = PeerDirectory::new();
    directory.record(NodeIdentity::from_bytes(first), "one".to_string());
    directory.record(NodeIdentity::from_bytes(second), "two".to_string());
    assert_eq!(directory.lookup(&NodeIdentity::from_bytes(first)), Some(&"one".to_string()));
    assert_eq!(directory.lookup(&NodeIdentity::from_bytes(second)), Some(&"two".to_string()));
    assert_eq!(directory.lookup(&NodeIdentity::from_bytes([7u8; 32])), None);
}

#[test]
fn snapshot_keeps_the_order_of_first_recording() {
    let mut directory = PeerDirectory::new();
    directory.record(id(3), "carol".to_string());
    directory.record(id(1), "alice".to_string());
    directory.record(id(2), "bob".to_string());
    directory.record(id(1), "alicia".to_string());
    assert_eq!(
        directory.snapshot_values(),
        vec!["carol".to_string(), "alicia".to_string(), "bob".to_string()]
    );
}

#[test]
fn two_identities_may_share_a_name() {
    let mut directory = PeerDirectory::new();
    directory.record(id(1), "sam".to_string());
    directory.record(id(2), "sam".to_string());
    assert_eq!(directory.snapshot_values(), vec!["sam".to_string(), "sam".to_string()]);
}

#[test]
fn same_compares_the_key_bytes() {
    assert!(id(4).same(&id(4)));
    assert!(!id(4).same(&id(5)));
    assert_eq!(id(4).as_bytes()[31], 4);
}
