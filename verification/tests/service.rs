use userauth::error::AuthError;
use userauth::service::{finish_registration, login, register};
use userauth::store::CredentialStore;

fn ready_store() -> CredentialStore {
    let mut s = CredentialStore::new();
    s.bootstrap();
    s
}

#[test]
fn register_then_login_round_trip() {
    let mut s = ready_store();
    let msg = register(&mut s, "alice", "s3cret").unwrap();
    assert!(msg.contains("alice"));
    assert_eq!(msg, "User alice registered successfully!");
    let greeting = login(&s, "alice", "s3cret").unwrap();
    assert!(greeting.contains("alice"));
    assert_eq!(greeting, "Welcome back alice!");
}

#[test]
fn register_taken_username_fails_whatever_the_password() {
    let mut s = ready_store();
    register(&mut s, "alice", "s3cret").unwrap();
    assert_eq!(register(&mut s, "alice", "other"), Err(AuthError::UsernameTaken));
    assert_eq!(register(&mut s, "alice", "s3cret"), Err(AuthError::UsernameTaken));
    assert_eq!(s.users.len(), 1);
}

#[test]
fn login_wrong_password_is_invalid() {
    let mut s = ready_store();
    register(&mut s, "alice", "s3cret").unwrap();
    assert_eq!(login(&s, "alice", "wrong"), Err(AuthError::InvalidPassword));
    assert_eq!(login(&s, "alice", ""), Err(AuthError::InvalidPassword));
}

#[test]
fn login_unknown_user_is_not_found() {
    let mut s = ready_store();
    assert_eq!(login(&s, "bob", "x"), Err(AuthError::UserNotFound));
    register(&mut s, "alice", "s3cret").unwrap();
    assert_eq!(login(&s, "bob", "x"), Err(AuthError::UserNotFound));
}

#[test]
fn scenario_alice_and_bob() {
    let mut s = ready_store();
    let msg = register(&mut s, "alice", "s3cret").unwrap();
    assert!(msg.contains("alice"));
    assert_eq!(register(&mut s, "alice", "other"), Err(AuthError::UsernameTaken));
    let greeting = login(&s, "alice", "s3cret").unwrap();
    assert!(greeting.contains("alice"));
    assert_eq!(login(&s, "alice", "wrong"), Err(AuthError::InvalidPassword));
    assert_eq!(login(&s, "bob", "x"), Err(AuthError::UserNotFound));
}

#[test]
fn same_password_distinct_hashes_both_verify() {
    let mut s = ready_store();
    register(&mut s, "alice", "shared-pw").unwrap();
    register(&mut s, "bob", "shared-pw").unwrap();
    let h_alice = s.users[0].password_hash.clone();
    let h_bob = s.users[1].password_hash.clone();
    assert_ne!(h_alice, h_bob);
    assert_eq!(login(&s, "alice", "shared-pw").unwrap(), "Welcome back alice!");
    assert_eq!(login(&s, "bob", "shared-pw").unwrap(), "Welcome back bob!");
    assert_eq!(login(&s, "alice", "shared-pW"), Err(AuthError::InvalidPassword));
}

#[test]
fn empty_username_and_password_are_opaque_strings() {
    let mut s = ready_store();
    let msg = register(&mut s, "", "").unwrap();
    assert_eq!(msg, "User  registered successfully!");
    assert_eq!(login(&s, "", "").unwrap(), "Welcome back !");
    assert_eq!(login(&s, "", "x"), Err(AuthError::InvalidPassword));
}

#[test]
fn operations_without_schema_are_unavailable() {
    let mut s = CredentialStore::new();
    assert_eq!(register(&mut s, "alice", "s3cret"), Err(AuthError::StoreUnavailable));
    assert_eq!(login(&s, "alice", "s3cret"), Err(AuthError::StoreUnavailable));
    assert_eq!(s.users.len(), 0);
}

#[test]
fn bootstrap_is_idempotent() {
    let mut s = CredentialStore::new();
    s.bootstrap();
    register(&mut s, "alice", "s3cret").unwrap();
    s.bootstrap();
    assert!(s.schema_ready);
    assert_eq!(s.users.len(), 1);
    assert_eq!(login(&s, "alice", "s3cret").unwrap(), "Welcome back alice!");
}

#[test]
fn corrupt_stored_hash_is_reported() {
    let mut s = ready_store();
    let msg = finish_registration(&mut s, "eve", "not-a-phc-hash").unwrap();
    assert!(msg.contains("eve"));
    assert_eq!(login(&s, "eve", "anything"), Err(AuthError::CorruptCredential));
}

#[test]
fn error_messages() {
    assert_eq!(AuthError::UsernameTaken.message(), "Username already taken");
    assert_eq!(AuthError::UserNotFound.message(), "User not found");
    assert_eq!(AuthError::InvalidPassword.message(), "Invalid password");
    assert_eq!(AuthError::CorruptCredential.message(), "Stored credential is corrupt");
    assert_eq!(AuthError::StoreUnavailable.message(), "Store unavailable");
    assert_eq!(AuthError::HashingFailed.message(), "Password hashing failed");
}
