use peer_name_service::store::RecordStore;

const NODE: [u8; 16] = [1; 16];
const OTHER_NODE: [u8; 16] = [2; 16];
const ALICE: [u8; 32] = [0x01; 32];
const BOB: [u8; 32] = [0x02; 32];
const RESOLVER: [u8; 32] = [0x11; 32];

#[test]
fn new_store_is_empty() {
    let store = RecordStore::new();
    assert!(!store.has_owner(&NODE));
    assert_eq!(store.owner_of(&NODE), None);
    assert_eq!(store.resolver_of(&NODE), None);
    assert!(store.records_have_room());
    assert!(store.resolvers_have_room());
}

#[test]
fn set_owner_inserts_and_overwrites() {
    let mut store = RecordStore::new();
    store.set_owner(NODE, ALICE);
    assert!(store.has_owner(&NODE));
    assert_eq!(store.owner_of(&NODE), Some(ALICE));
    assert_eq!(store.resolver_of(&NODE), None);
    assert!(!store.has_owner(&OTHER_NODE));
    store.set_owner(NODE, BOB);
    assert_eq!(store.owner_of(&NODE), Some(BOB));
    assert!(store.records_have_room());
}

#[test]
fn set_resolver_inserts_and_overwrites() {
    let mut store = RecordStore::new();
    store.set_resolver(NODE, RESOLVER);
    assert_eq!(store.resolver_of(&NODE), Some(RESOLVER));
    assert_eq!(store.owner_of(&NODE), None);
    assert!(!store.has_owner(&NODE));
    store.set_resolver(NODE, ALICE);
    assert_eq!(store.resolver_of(&NODE), Some(ALICE));
    assert_eq!(store.resolver_of(&OTHER_NODE), None);
}

#[test]
fn remove_owner_leaves_the_resolver() {
    let mut store = RecordStore::new();
    store.set_owner(NODE, ALICE);
    store.set_resolver(NODE, RESOLVER);
    store.set_owner(OTHER_NODE, BOB);
    store.remove_owner(&NODE);
    assert!(!store.has_owner(&NODE));
    assert_eq!(store.owner_of(&NODE), None);
    assert_eq!(store.resolver_of(&NODE), Some(RESOLVER));
    assert_eq!(store.owner_of(&OTHER_NODE), Some(BOB));
}

#[test]
fn remove_owner_of_absent_node_changes_nothing() {
    let mut store = RecordStore::new();
    store.set_owner(OTHER_NODE, BOB);
    store.remove_owner(&NODE);
    store.remove_owner(&NODE);
    assert_eq!(store.owner_of(&NODE), None);
    assert_eq!(store.owner_of(&OTHER_NODE), Some(BOB));
}

#[test]
fn removed_owner_can_be_set_again() {
    let mut store = RecordStore::new();
    store.set_owner(NODE, ALICE);
    store.remove_owner(&NODE);
    store.set_owner(NODE, BOB);
    assert_eq!(store.owner_of(&NODE), Some(BOB));
}
