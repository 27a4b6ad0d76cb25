use ripfy_server::store::RefreshStore;

#[test]
fn set_then_get_del_consumes() {
    let mut store = RefreshStore::new();
    store.set_ex("token-id", "user-1", 10, 100);

    assert_eq!(store.get_del("token-id", 105), Some("user-1".to_string()));
    // consumed: the second take misses
    assert_eq!(store.get_del("token-id", 105), None);
}

#[test]
fn entries_lapse_after_ttl() {
    let mut store = RefreshStore::new();
    store.set_ex("token-id", "user-1", 10, 100);

    // at the lapse moment the entry counts as absent
    assert_eq!(store.get_del("token-id", 110), None);
}

#[test]
fn set_ex_replaces_existing_entry() {
    let mut store = RefreshStore::new();
    store.set_ex("token-id", "user-1", 10, 100);
    store.set_ex("token-id", "user-2", 10, 200);

    assert_eq!(store.get_del("token-id", 205), Some("user-2".to_string()));
}

#[test]
fn missing_key_misses() {
    let mut store = RefreshStore::new();
    store.set_ex("token-id", "user-1", 10, 100);
    assert_eq!(store.get_del("other-id", 100), None);
    // the stored entry is untouched by the miss
    assert_eq!(store.get_del("token-id", 101), Some("user-1".to_string()));
}
