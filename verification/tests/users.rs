use minehelm::error::ApiError;
use minehelm::keys::KeyTags;
use minehelm::users::{CreateUserPayload, UsersService, MAX_USERNAME_LEN};

#[test]
fn max_username_length_is_24() {
    assert_eq!(MAX_USERNAME_LEN, 24);
}

#[test]
fn create_user_rejects_an_overlong_username_before_any_work() {
    let payload = CreateUserPayload {
        username: "b".repeat(MAX_USERNAME_LEN + 1),
        password: "secret".to_string(),
    };
    let err = UsersService::create_user(&payload, KeyTags::admin()).unwrap_err();
    assert_eq!(err.status_code(), 400);
    assert!(matches!(err, ApiError::Message(400, _)));
}

#[test]
fn create_user_carries_the_requested_tags() {
    let payload = CreateUserPayload {
        username: "operator".to_string(),
        password: "secret".to_string(),
    };
    let record = UsersService::create_user(&payload, KeyTags::empty()).unwrap();
    assert_eq!(record.tags.bits(), 0);
    let record = UsersService::create_user(&payload, KeyTags::admin()).unwrap();
    assert_eq!(record.tags.bits(), 1);
}

#[test]
fn create_user_keeps_the_username_and_hashes_the_secret() {
    let payload = CreateUserPayload {
        username: "operator".to_string(),
        password: "correct horse battery staple".to_string(),
    };
    let record = UsersService::create_user(&payload, KeyTags::admin()).unwrap();
    assert_eq!(record.username, "operator");
    assert!(record.password_hash.starts_with('$'));
    assert_ne!(record.password_hash, payload.password);
    // bcrypt salts every hash, so hashing twice never collides.
    let again = UsersService::create_user(&payload, KeyTags::admin()).unwrap();
    assert_ne!(record.password_hash, again.password_hash);
}

#[test]
fn assemble_user_record_keeps_the_given_hash() {
    let payload = CreateUserPayload {
        username: "operator".to_string(),
        password: "ignored here".to_string(),
    };
    let record = UsersService::assemble_user_record(
        &payload,
        KeyTags::admin(),
        "$2b$08$abcdefghijklmnopqrstuv".to_string(),
    );
    assert_eq!(record.username, "operator");
    assert_eq!(record.password_hash, "$2b$08$abcdefghijklmnopqrstuv");
    assert_eq!(record.tags.bits(), 1);
    assert_eq!(record.key.as_str().chars().count(), 128);
}

#[test]
fn create_user_accepts_an_empty_username() {
    let payload = CreateUserPayload { username: String::new(), password: "p".to_string() };
    assert!(UsersService::create_user(&payload, KeyTags::admin()).is_ok());
}
