use shade::clock::Timestamp;
use shade::storage::memory::MemoryStore;
use shade::storage::{
    check_removed, check_vacant, is_authorized, KeyPair, Selector, StorageBackend, StoreError,
};

fn candidate(public_key: &str, expires_at: Option<Timestamp>) -> KeyPair {
    KeyPair {
        id: 0,
        public_key: public_key.to_string(),
        private_key: format!("secret of {}", public_key),
        created_at: Timestamp { secs: 0, nanos: 0 },
        expires_at,
    }
}

fn at(secs: i64) -> Timestamp {
    Timestamp { secs, nanos: 0 }
}

#[test]
fn new_store_is_empty() {
    let store = MemoryStore::new();
    assert_eq!(store.len(), 0);
    assert!(store.list().is_empty());
    assert!(store.list_hosts().is_empty());
    assert!(!store.is_authorized_at("pub-A", at(0)));
}

#[test]
fn registered_identity_is_listed_with_assigned_id() {
    let mut store = MemoryStore::new();
    let stored = store.register_with(candidate("pub-A", None), 41, at(1000)).unwrap();
    assert_eq!(stored.id, 41);
    assert_eq!(stored.public_key, "pub-A");
    assert_eq!(stored.private_key, "secret of pub-A");
    assert_eq!(stored.created_at, at(1000));
    assert_eq!(stored.expires_at, None);
    assert_eq!(store.list(), vec![stored]);
}

#[test]
fn register_key_assigns_a_fresh_id() {
    let mut store = MemoryStore::new();
    let first = store.register_key(candidate("pub-A", None)).unwrap();
    let second = store.register_key(candidate("pub-B", None)).unwrap();
    assert_ne!(first.id, 0);
    assert_ne!(first.id, second.id);
    assert!(first.created_at.secs > 1_600_000_000);
    assert_eq!(first.public_key, "pub-A");
    assert_eq!(second.public_key, "pub-B");
    let listed = store.list_keys().unwrap();
    assert_eq!(listed, vec![first, second]);
}

#[test]
fn listing_keeps_enrollment_order() {
    let mut store = MemoryStore::new();
    for (id, key) in [(3u128, "c"), (1, "a"), (2, "b")] {
        store.register_with(candidate(key, None), id, at(5)).unwrap();
    }
    let ids: Vec<u128> = store.list().iter().map(|k| k.id).collect();
    assert_eq!(ids, vec![3, 1, 2]);
    assert_eq!(store.len(), 3);
}

#[test]
fn duplicate_public_key_is_a_conflict() {
    let mut store = MemoryStore::new();
    let first = store.register_with(candidate("pub-A", None), 1, at(5)).unwrap();
    assert_eq!(
        store.register_with(candidate("pub-A", Some(at(9))), 2, at(6)),
        Err(StoreError::Conflict)
    );
    assert_eq!(store.register_key(candidate("pub-A", None)), Err(StoreError::Conflict));
    assert_eq!(store.list(), vec![first]);
}

#[test]
fn taken_identifier_is_a_backend_failure() {
    let mut store = MemoryStore::new();
    let first = store.register_with(candidate("pub-A", None), 1, at(5)).unwrap();
    assert_eq!(store.register_with(candidate("pub-B", None), 1, at(6)), Err(StoreError::Backend));
    assert_eq!(store.list(), vec![first]);
}

#[test]
fn revoked_identity_is_no_longer_authorized() {
    let mut store = MemoryStore::new();
    let kept = store.register_with(candidate("pub-A", None), 1, at(5)).unwrap();
    let gone = store.register_with(candidate("pub-B", None), 2, at(5)).unwrap();
    assert!(store.is_authorized_at("pub-B", at(6)));
    assert_eq!(store.revoke(gone.id), Ok(()));
    assert!(!store.is_authorized_at("pub-B", at(6)));
    assert!(store.is_authorized_at("pub-A", at(6)));
    assert_eq!(store.list(), vec![kept]);
}

#[test]
fn second_revoke_finds_nothing_and_changes_nothing() {
    let mut store = MemoryStore::new();
    let kept = store.register_with(candidate("pub-A", None), 1, at(5)).unwrap();
    store.register_with(candidate("pub-B", None), 2, at(5)).unwrap();
    assert_eq!(store.revoke_key(2), Ok(()));
    assert_eq!(store.revoke_key(2), Err(StoreError::NotFound));
    assert_eq!(store.revoke(2), Err(StoreError::NotFound));
    assert_eq!(store.list(), vec![kept]);
}

#[test]
fn revoke_of_unknown_identifier_is_not_found() {
    let mut store = MemoryStore::new();
    assert_eq!(store.revoke(7), Err(StoreError::NotFound));
    assert_eq!(store.len(), 0);
}

#[test]
fn revoked_public_key_can_be_enrolled_again() {
    let mut store = MemoryStore::new();
    store.register_with(candidate("pub-A", None), 1, at(5)).unwrap();
    store.revoke(1).unwrap();
    let again = store.register_with(candidate("pub-A", None), 2, at(6)).unwrap();
    assert_eq!(again.id, 2);
    assert!(store.is_authorized_at("pub-A", at(7)));
}

#[test]
fn enrolled_public_key_is_authorized() {
    let mut store = MemoryStore::new();
    let stored = store.register_key(candidate("pub-A", None)).unwrap();
    assert_ne!(stored.id, 0);
    assert_eq!(store.validate_public_key("pub-A"), Ok(true));
    assert_eq!(is_authorized(&store, &Selector::PublicKey("pub-A".to_string())), Ok(true));
    assert_eq!(is_authorized(&store, &Selector::PublicKey("pub-B".to_string())), Ok(false));
}

#[test]
fn expired_identity_is_not_authorized() {
    let mut store = MemoryStore::new();
    store.register_with(candidate("pub-A", Some(at(100))), 1, at(5)).unwrap();
    assert!(store.is_authorized_at("pub-A", at(99)));
    assert!(!store.is_authorized_at("pub-A", at(100)));
    assert!(!store.is_authorized_at("pub-A", at(101)));
    assert!(store.is_authorized_at("pub-A", Timestamp { secs: 99, nanos: 999_999_999 }));
}

#[test]
fn identity_expired_long_ago_fails_validation_now() {
    let mut store = MemoryStore::new();
    store.register_with(candidate("old", Some(at(1))), 1, at(0)).unwrap();
    store.register_with(candidate("epoch", Some(at(0))), 3, at(0)).unwrap();
    store.register_with(candidate("before", Some(at(-5))), 4, at(-9)).unwrap();
    assert_eq!(store.validate_public_key("epoch"), Ok(false));
    assert_eq!(store.validate_public_key("before"), Ok(false));
    store.register_with(candidate("far", Some(at(i64::MAX))), 2, at(0)).unwrap();
    assert_eq!(store.validate_public_key("old"), Ok(false));
    assert_eq!(store.validate_public_key("far"), Ok(true));
}

#[test]
fn authorized_peer_is_the_matching_record() {
    let mut store = MemoryStore::new();
    store.register_with(candidate("pub-A", None), 1, at(5)).unwrap();
    let wanted = store.register_with(candidate("10.0.0.7", Some(at(50))), 2, at(5)).unwrap();
    assert_eq!(store.authorized_peer("10.0.0.7", at(10)), Some(wanted));
    assert_eq!(store.authorized_peer("10.0.0.7", at(50)), None);
    assert_eq!(store.authorized_peer("10.0.0.8", at(10)), None);
}

#[test]
fn selector_text_is_what_is_looked_up() {
    assert_eq!(Selector::PublicKey("pub-A".to_string()).text(), "pub-A");
    assert_eq!(Selector::Address("10.0.0.5".to_string()).text(), "10.0.0.5");
}

#[test]
fn host_addresses_are_kept_in_order() {
    let mut store = MemoryStore::new();
    assert!(!store.validate_host_ip("10.0.0.5"));
    assert_eq!(store.store_client_ip("10.0.0.5".to_string()), Ok(()));
    store.store_host("10.0.0.6".to_string(), at(77));
    assert!(store.validate_host_ip("10.0.0.5"));
    assert!(store.validate_host_ip("10.0.0.6"));
    assert!(!store.validate_host_ip("10.0.0.7"));
    let hosts = store.list_hosts();
    assert_eq!(hosts.len(), 2);
    assert_eq!(hosts[0].ip, "10.0.0.5");
    assert_eq!(hosts[1].ip, "10.0.0.6");
    assert_eq!(hosts[1].created_at, at(77));
    assert_eq!(store.len(), 0);
}

#[test]
fn store_error_messages() {
    assert_eq!(StoreError::NotFound.message(), "identity not found");
    assert_eq!(StoreError::Conflict.message(), "public key already enrolled");
    assert_eq!(StoreError::Backend.message(), "storage backend failure");
}

#[test]
fn new_key_pair_derives_its_public_key() {
    let private_key = "dwdtCnMYpX08FsFyUbJmRd9ML4frwJkqsXf7pR25LCo=".to_string();
    let deadline = Some(at(4_000_000_000));
    let keypair = KeyPair::new(private_key.clone(), deadline).unwrap();
    assert_eq!(keypair.public_key, "hSDwCYkwp1R0i33ctD73Wg2/Og0mOBr066SpjqqbTmo=");
    assert_eq!(keypair.private_key, private_key);
    assert_eq!(keypair.expires_at, deadline);
    assert_eq!((keypair.id >> 76) & 0xf, 4);
    assert!(keypair.created_at.secs > 1_600_000_000);
    assert!(keypair.created_at.valid());
    assert!(keypair.valid());
    let later = KeyPair::new(private_key, None).unwrap();
    assert!(later.created_at.reached(keypair.created_at));
}

#[test]
fn new_key_pair_needs_a_sound_private_key() {
    assert!(KeyPair::new("???".to_string(), None).is_err());
    assert!(KeyPair::new("c2hvcnQ=".to_string(), None).is_err());
}

#[test]
fn record_with_malformed_identifier_is_none() {
    let record = KeyPair::from_record(
        "a1a2a3a4-b1b2-c1c2-d1d2-d3d4d5d6d7d8",
        "pub".to_string(),
        "priv".to_string(),
        at(1),
        None,
    )
    .unwrap();
    assert_eq!(record.id, 0xa1a2a3a4_b1b2_c1c2_d1d2_d3d4d5d6d7d8u128);
    assert_eq!(record.public_key, "pub");
    assert_eq!(record.private_key, "priv");
    assert_eq!(record.created_at, at(1));
    assert_eq!(
        KeyPair::from_record("nonsense", "pub".to_string(), "priv".to_string(), at(1), None),
        None
    );
}

#[test]
fn key_pair_clone_is_equal() {
    let keypair = candidate("pub-A", Some(at(3)));
    assert_eq!(keypair.clone(), keypair);
}

#[test]
fn counts_from_a_table_decide_conflict_and_not_found() {
    assert_eq!(check_vacant(0), Ok(()));
    assert_eq!(check_vacant(1), Err(StoreError::Conflict));
    assert_eq!(check_vacant(usize::MAX), Err(StoreError::Conflict));
    assert_eq!(check_removed(0), Err(StoreError::NotFound));
    assert_eq!(check_removed(1), Ok(()));
    assert_eq!(check_removed(u64::MAX), Ok(()));
}

#[test]
fn record_validity_follows_its_instants() {
    assert!(candidate("a", None).valid());
    assert!(candidate("a", Some(at(7))).valid());
    assert!(!candidate("a", Some(at(i64::MAX))).valid());
    let mut odd = candidate("a", None);
    odd.created_at = Timestamp { secs: 0, nanos: 1_000_000_000 };
    assert!(!odd.valid());
    let record = KeyPair::from_record(
        "a1a2a3a4-b1b2-c1c2-d1d2-d3d4d5d6d7d8",
        "pub".to_string(),
        "priv".to_string(),
        at(i64::MIN),
        None,
    )
    .unwrap();
    assert!(!record.valid());
}

#[test]
fn stored_record_has_a_valid_enrollment_instant() {
    let mut store = MemoryStore::new();
    let stored = store.register_key(candidate("pub-A", Some(at(9)))).unwrap();
    assert!(stored.created_at.valid());
    assert!(stored.valid());
}

#[test]
fn new_public_key_is_enrolled_in_an_empty_store() {
    for key in ["a", "b", "c", "d", "e", "f", "g", "h"] {
        let mut store = MemoryStore::new();
        let stored = store.register_key(candidate(key, None)).unwrap();
        assert_eq!((stored.id >> 76) & 0xf, 4);
        assert_eq!((stored.id >> 62) & 0x3, 2);
        assert_eq!(store.len(), 1);
    }
}

#[test]
fn new_public_key_is_enrolled_beside_identifiers_of_another_kind() {
    let mut store = MemoryStore::new();
    for id in 0..64u128 {
        store.register_with(candidate(&format!("key {}", id), None), id, at(1)).unwrap();
    }
    let stored = store.register_key(candidate("pub-A", None)).unwrap();
    assert!(stored.id >= 64);
    assert_eq!(store.len(), 65);
}

#[test]
fn enrollment_instant_is_a_reading_of_the_clock() {
    let mut store = MemoryStore::new();
    let stored = store.register_key(candidate("pub-A", None)).unwrap();
    assert!(stored.created_at.secs >= 0);
    assert!(stored.created_at.nanos < 1_000_000_000);
    assert!(stored.created_at.valid());
}
