use wardnet::key_store::{key_from_store, store_outcome, KeyStoreAdapter, KeyStoreError, SecretStore, StoreError};
use wardnet::secret_store::{MemorySecretStore, NullSecretStore};

fn tunnel_id() -> uuid::Uuid {
    uuid::Uuid::new_v4()
}

#[test]
fn save_then_load_returns_same_key() {
    let mut adapter = KeyStoreAdapter::new(MemorySecretStore::new());

    let tunnel_id = tunnel_id();
    adapter.save_key(tunnel_id.as_u128(), "abc123-private-key").unwrap();

    let loaded = adapter.load_key(tunnel_id.as_u128()).unwrap();
    assert_eq!(loaded, "abc123-private-key");
}

#[test]
fn save_writes_to_wireguard_namespace() {
    let mut adapter = KeyStoreAdapter::new(MemorySecretStore::new());

    let tunnel_id = tunnel_id();
    adapter.save_key(tunnel_id.as_u128(), "k").unwrap();

    let store = adapter.into_inner();
    let listed: Vec<String> = store
        .paths()
        .into_iter()
        .filter(|p| p.starts_with("wireguard"))
        .collect();
    assert_eq!(listed.len(), 1);
    assert_eq!(listed[0], format!("wireguard/{tunnel_id}.key"));
}

#[test]
fn load_missing_key_errors() {
    let adapter = KeyStoreAdapter::new(MemorySecretStore::new());

    let err = adapter.load_key(tunnel_id().as_u128()).unwrap_err();
    assert!(
        err.message().contains("private key not found"),
        "unexpected error: {}",
        err.message()
    );
}

#[test]
fn load_non_utf8_key_errors() {
    let mut store = MemorySecretStore::new();
    let tunnel_id = tunnel_id();
    store
        .put(&format!("wireguard/{tunnel_id}.key"), &[0xFF, 0xFE, 0xFD, 0xFC])
        .unwrap();
    let adapter = KeyStoreAdapter::new(store);

    let err = adapter.load_key(tunnel_id.as_u128()).unwrap_err();
    assert!(
        err.message().contains("not valid utf-8"),
        "unexpected error: {}",
        err.message()
    );
    assert!(matches!(err, KeyStoreError::NotUtf8 { .. }));
}

#[test]
fn delete_removes_key_from_store() {
    let mut adapter = KeyStoreAdapter::new(MemorySecretStore::new());

    let tunnel_id = tunnel_id();
    adapter.save_key(tunnel_id.as_u128(), "k").unwrap();
    adapter.delete_key(tunnel_id.as_u128()).unwrap();

    let err = adapter.load_key(tunnel_id.as_u128()).unwrap_err();
    assert!(err.message().contains("private key not found"));
}

#[test]
fn delete_is_idempotent_for_missing_keys() {
    let mut adapter = KeyStoreAdapter::new(MemorySecretStore::new());
    adapter.delete_key(tunnel_id().as_u128()).unwrap();
}

#[test]
fn key_path_is_hyphenated_lowercase_uuid() {
    let id = uuid::Uuid::parse_str("A1A2A3A4-B1B2-C1C2-D1D2-D3D4D5D6D7D8").unwrap();
    assert_eq!(
        KeyStoreAdapter::<MemorySecretStore>::path(id.as_u128()),
        "wireguard/a1a2a3a4-b1b2-c1c2-d1d2-d3d4d5d6d7d8.key"
    );
}

#[test]
fn not_found_message_names_the_tunnel() {
    let id = uuid::Uuid::parse_str("00000000-0000-0000-0000-00000000002a").unwrap();
    let err = KeyStoreError::NotFound { tunnel_id: id.as_u128() };
    assert_eq!(
        err.message(),
        "private key not found for tunnel_id=00000000-0000-0000-0000-00000000002a"
    );
}

#[test]
fn keys_of_different_tunnels_are_independent() {
    let mut adapter = KeyStoreAdapter::new(MemorySecretStore::new());
    let a = tunnel_id();
    let b = tunnel_id();
    adapter.save_key(a.as_u128(), "key-a").unwrap();
    adapter.save_key(b.as_u128(), "key-b").unwrap();
    adapter.delete_key(a.as_u128()).unwrap();
    assert_eq!(adapter.load_key(b.as_u128()).unwrap(), "key-b");
    assert!(matches!(
        adapter.load_key(a.as_u128()),
        Err(KeyStoreError::NotFound { .. })
    ));
}

#[test]
fn failing_store_errors_surface() {
    let mut adapter = KeyStoreAdapter::new(NullSecretStore);
    let id = tunnel_id().as_u128();
    assert!(matches!(adapter.save_key(id, "k"), Err(KeyStoreError::Store(_))));
    assert!(matches!(adapter.load_key(id), Err(KeyStoreError::Store(_))));
    let err = adapter.delete_key(id).unwrap_err();
    assert_eq!(err.message(), "no secret store is configured");
}

#[test]
fn null_secret_store_rejects_all_operations() {
    let mut store = NullSecretStore;
    assert!(store.put("any/path", b"x").is_err());
    assert!(store.get("any/path").is_err());
    assert!(store.delete("any/path").is_err());
}

#[test]
fn store_answers_map_to_key_answers() {
    let id = 7u128;
    let failure = StoreError { message: "disk full".to_owned() };
    assert_eq!(key_from_store(id, Err(failure.clone())), Err(KeyStoreError::Store(failure.clone())));
    assert_eq!(key_from_store(id, Ok(None)), Err(KeyStoreError::NotFound { tunnel_id: id }));
    assert_eq!(key_from_store(id, Ok(Some(b"abc".to_vec()))), Ok("abc".to_owned()));
    match key_from_store(id, Ok(Some(vec![0xFF, 0xFE]))) {
        Err(KeyStoreError::NotUtf8 { tunnel_id, detail }) => {
            assert_eq!(tunnel_id, id);
            assert_eq!(detail, String::from_utf8(vec![0xFF, 0xFE]).unwrap_err().to_string());
        }
        other => panic!("unexpected {other:?}"),
    }
    assert_eq!(store_outcome(Ok(())), Ok(()));
    assert_eq!(store_outcome(Err(failure.clone())), Err(KeyStoreError::Store(failure)));
}
