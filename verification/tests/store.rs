use userauth::error::StoreError;
use userauth::hashing::{hash_new_password, verify_stored_password};
use userauth::store::CredentialStore;

#[test]
fn find_on_empty_store_is_absent_not_an_error() {
    let mut s = CredentialStore::new();
    s.bootstrap();
    assert_eq!(s.find_by_username("alice").unwrap().map(|u| u.id), None);
}

#[test]
fn insert_assigns_sequential_ids_and_returns_the_row() {
    let mut s = CredentialStore::new();
    s.bootstrap();
    let a = s.insert("alice", "hash-a").unwrap();
    let b = s.insert("bob", "hash-b").unwrap();
    assert_eq!(a.id, 1);
    assert_eq!(b.id, 2);
    assert_eq!(a.username, "alice");
    assert_eq!(a.password_hash, "hash-a");
    let found = s.find_by_username("bob").unwrap().unwrap();
    assert_eq!(found.id, 2);
    assert_eq!(found.password_hash, "hash-b");
}

#[test]
fn insert_duplicate_username_violates_the_constraint() {
    let mut s = CredentialStore::new();
    s.bootstrap();
    s.insert("alice", "hash-a").unwrap();
    assert!(matches!(s.insert("alice", "hash-c"), Err(StoreError::ConstraintViolation)));
    assert_eq!(s.users.len(), 1);
}

#[test]
fn insert_without_schema_is_unavailable() {
    let mut s = CredentialStore::new();
    assert!(matches!(s.insert("alice", "hash-a"), Err(StoreError::Unavailable)));
    assert!(matches!(s.find_by_username("alice"), Err(StoreError::Unavailable)));
}

#[test]
fn fresh_hash_verifies_only_its_own_password() {
    let h = hash_new_password("s3cret").unwrap();
    assert_ne!(h, "s3cret");
    assert!(h.starts_with("$argon2"));
    assert!(verify_stored_password(&h, "s3cret").is_ok());
    assert!(verify_stored_password(&h, "S3cret").is_err());
}

#[test]
fn garbage_is_not_a_well_formed_hash() {
    assert!(verify_stored_password("", "pw").is_err());
    assert!(verify_stored_password("plainly not encoded", "pw").is_err());
}
