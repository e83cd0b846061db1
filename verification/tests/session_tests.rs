use tenauth::session::SessionStore;

#[test]
fn put_then_lookup_resolves_the_owner() {
    let mut store = SessionStore::new();
    store.put("alice@example.test".to_string(), "token-a".to_string(), 1_000);
    store.put("bob@example.test".to_string(), "token-b".to_string(), 1_000);

    let owner = store.owner_of("token-a", 500).unwrap();
    assert_eq!(owner.user_id, "alice@example.test");
    let owner = store.owner_of("token-b", 500).unwrap();
    assert_eq!(owner.user_id, "bob@example.test");
    assert!(store.owner_of("token-c", 500).is_none());
    assert_eq!(store.len(), 2);
}

#[test]
fn overwrite_invalidates_the_prior_token() {
    let mut store = SessionStore::new();
    store.put("alice@example.test".to_string(), "first".to_string(), 1_000);
    store.put("alice@example.test".to_string(), "second".to_string(), 1_000);

    assert!(store.owner_of("first", 10).is_none());
    let owner = store.owner_of("second", 10).unwrap();
    assert_eq!(owner.user_id, "alice@example.test");
    // Still a single record for the identity: last login wins.
    assert_eq!(store.len(), 1);
}

#[test]
fn expiry_boundary_of_a_stored_record() {
    let mut store = SessionStore::new();
    store.put("alice@example.test".to_string(), "tok".to_string(), 1_000);

    assert!(store.owner_of("tok", 999).is_some());
    assert!(store.owner_of("tok", 1_000).is_none());
    assert!(store.owner_of("tok", 1_001).is_none());
}
