use minehelm::config::{MHConfig, MineHelmConfig};
use minehelm::engine::ContainerEngineKind;
use minehelm::error::ApiError;
use minehelm::onboarding::{
    check, complete_create_admin, create_admin, finish, select_engine, SelectEnginePayload,
};
use minehelm::users::CreateUserPayload;

fn fresh_store() -> MHConfig {
    MHConfig::new(MineHelmConfig::default())
}

fn onboarded_store() -> MHConfig {
    MHConfig::new(MineHelmConfig { is_onboarded: true, engine: ContainerEngineKind::Docker })
}

fn admin_payload() -> CreateUserPayload {
    CreateUserPayload { username: "admin".to_string(), password: "hunter2".to_string() }
}

fn is_client_error(err: &ApiError) -> bool {
    matches!(err, ApiError::Message(code, _) if (400..500).contains(code))
}

#[test]
fn select_engine_accepts_every_known_kind_and_stores_it() {
    for (name, kind) in [
        ("docker", ContainerEngineKind::Docker),
        ("kubernetes", ContainerEngineKind::Kubernetes),
    ] {
        let mut store = fresh_store();
        let payload = SelectEnginePayload { engine: name.to_string() };
        let (result, record) = select_engine(&mut store, &payload);
        assert_eq!(result.unwrap(), kind);
        assert_eq!(store.read().engine, kind);
        assert!(!store.read().is_onboarded);
        // The record to persist is the complete encoding of the new state.
        assert_eq!(MineHelmConfig::parse(&record.unwrap()), Some(store.read()));
    }
}

#[test]
fn select_engine_rejects_unknown_kinds_and_changes_nothing() {
    let mut store = fresh_store();
    let before = store.read();
    let payload = SelectEnginePayload { engine: "podman".to_string() };
    let (result, record) = select_engine(&mut store, &payload);
    let err = result.unwrap_err();
    assert!(is_client_error(&err));
    assert_eq!(store.read(), before);
    assert!(record.is_none());
}

#[test]
fn select_engine_is_rejected_once_onboarded() {
    let mut store = onboarded_store();
    let before = store.read();
    let payload = SelectEnginePayload { engine: "kubernetes".to_string() };
    let (result, record) = select_engine(&mut store, &payload);
    assert!(is_client_error(&result.unwrap_err()));
    assert_eq!(store.read(), before);
    assert!(record.is_none());
}

#[test]
fn create_admin_is_rejected_once_onboarded() {
    let store = onboarded_store();
    let result = create_admin(&store, &admin_payload());
    assert!(is_client_error(&result.unwrap_err()));
}

#[test]
fn finish_is_rejected_once_onboarded() {
    let mut store = onboarded_store();
    let before = store.read();
    let (result, record) = finish(&mut store);
    assert!(is_client_error(&result.unwrap_err()));
    assert_eq!(store.read(), before);
    assert!(record.is_none());
}

#[test]
fn finish_flips_the_flag_and_returns_the_record_to_persist() {
    let mut store = fresh_store();
    assert!(check(&store));
    let (result, record) = finish(&mut store);
    assert!(result.is_ok());
    assert!(store.read().is_onboarded);
    assert_eq!(store.read().engine, ContainerEngineKind::Docker);
    assert_eq!(MineHelmConfig::parse(&record.unwrap()), Some(store.read()));
    assert!(!check(&store));
}

#[test]
fn create_admin_rejects_a_25_character_username() {
    let store = fresh_store();
    let payload = CreateUserPayload {
        username: "a".repeat(25),
        password: "hunter2".to_string(),
    };
    let err = create_admin(&store, &payload).unwrap_err();
    assert!(is_client_error(&err));
    assert_eq!(err.status_code(), 400);
}

#[test]
fn create_admin_accepts_a_24_character_username() {
    let store = fresh_store();
    let payload = CreateUserPayload {
        username: "a".repeat(24),
        password: "hunter2".to_string(),
    };
    assert!(create_admin(&store, &payload).is_ok());
}

#[test]
fn username_length_is_counted_in_characters() {
    // 24 two-byte characters are within the limit even though the
    // byte length is 48.
    let store = fresh_store();
    let payload = CreateUserPayload {
        username: "\u{e9}".repeat(24),
        password: "hunter2".to_string(),
    };
    assert!(create_admin(&store, &payload).is_ok());
    let payload = CreateUserPayload {
        username: "\u{e9}".repeat(25),
        password: "hunter2".to_string(),
    };
    assert!(is_client_error(&create_admin(&store, &payload).unwrap_err()));
}

#[test]
fn create_admin_builds_the_admin_record() {
    let store = fresh_store();
    let payload = admin_payload();
    let record = create_admin(&store, &payload).unwrap();
    assert_eq!(record.username, "admin");
    assert_eq!(record.tags.bits(), 1);
    assert_eq!(record.key.as_str().chars().count(), 128);
    assert!(record.key.as_str().chars().all(|c| c.is_ascii_alphanumeric()));
    // The stored secret is a one-way hash, never the password itself.
    assert!(record.password_hash.starts_with('$'));
    assert_ne!(record.password_hash, payload.password);
    // Creating the account does not flip the durable flag; only
    // `finish` does.
    assert!(check(&store));
}

#[test]
fn complete_create_admin_returns_id_and_raw_token() {
    let store = fresh_store();
    let record = create_admin(&store, &admin_payload()).unwrap();
    let token = record.key.as_str().to_string();
    let created = complete_create_admin(record.key, Ok(7)).unwrap();
    assert_eq!(created.id, 7);
    assert_eq!(created.key.as_str(), token);
}

#[test]
fn complete_create_admin_rejects_a_non_positive_id() {
    let store = fresh_store();
    let record = create_admin(&store, &admin_payload()).unwrap();
    let err = complete_create_admin(record.key, Ok(0)).unwrap_err();
    assert!(matches!(err, ApiError::Internal(_)));
    assert_eq!(err.status_code(), 500);
}

#[test]
fn complete_create_admin_wraps_a_store_failure() {
    let store = fresh_store();
    let record = create_admin(&store, &admin_payload()).unwrap();
    let err = complete_create_admin(record.key, Err("connection reset".to_string())).unwrap_err();
    assert!(matches!(err, ApiError::Internal(_)));
}

#[test]
fn bootstrap_sequence_ends_operational() {
    let mut store = fresh_store();
    assert!(check(&store));
    let payload = SelectEnginePayload { engine: "docker".to_string() };
    let (selected, _) = select_engine(&mut store, &payload);
    assert!(selected.is_ok());
    let record = create_admin(&store, &admin_payload()).unwrap();
    let created = complete_create_admin(record.key, Ok(1)).unwrap();
    assert_eq!(created.id, 1);
    let (finished, persisted) = finish(&mut store);
    assert!(finished.is_ok());
    assert!(!check(&store));
    // A restart reloads exactly the state that was persisted.
    let (reloaded, to_persist) = MineHelmConfig::load_or_init(persisted);
    assert!(to_persist.is_none());
    assert_eq!(reloaded, store.read());
}
