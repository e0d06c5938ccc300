//! A credential service: user registration and login against a store of
//! username / password-hash rows, with the salted password hashing done by
//! argon2 behind a small trusted boundary.
//!
//! The store keeps exactly one row per username; a password is never stored,
//! only a self-describing encoded hash (algorithm, parameters, salt and
//! digest in one string), so verification needs nothing but that one field
//! and the candidate plaintext.

pub mod error;
pub mod hashing;
pub mod laws;
pub mod service;
pub mod store;

pub use error::AuthError;
pub use error::StoreError;
