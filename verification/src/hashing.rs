use vstd::prelude::*;

use argon2::password_hash::rand_core::OsRng;
use argon2::password_hash::PasswordHash;
use argon2::password_hash::SaltString;
use argon2::Argon2;
use argon2::PasswordHasher;
use argon2::PasswordVerifier;

use crate::error::AuthError;

verus! {

/// Whether `h` is a well-formed PHC-encoded password hash, that is, whether
/// `argon2::password_hash::PasswordHash::new` accepts it. Parsing is a pure
/// function of the string, so its outcome can be given a name.
pub uninterp spec fn phc_well_formed(h: Seq<char>) -> bool;

/// Whether the candidate password `p` verifies against the PHC-encoded hash
/// `h`: the outcome of parsing `h` and running the default, keyless argon2
/// verifier on it, which recomputes the digest from the algorithm, version,
/// parameters and salt embedded in `h` and compares outputs. Both steps are
/// pure functions of `h` and `p`, so the outcome can be given a name.
pub uninterp spec fn phc_verifies(h: Seq<char>, p: Seq<char>) -> bool;

/// Relies on argon2's `PasswordHasher::hash_password` with a freshly
/// generated random salt: on success the returned PHC string parses back
/// (`PasswordHash::new` accepts its own serialization) and verifies against
/// the password it was derived from, since `verify_password` recomputes the
/// digest with the algorithm, parameters and salt embedded in the string.
/// The salt is random, so nothing more is promised of the string itself.
#[verifier::external_body]
fn generate_phc_hash(password: &str) -> (r: Option<String>)
    ensures
        r matches Some(h) ==> phc_well_formed(h@) && phc_verifies(h@, password@),
{
    let salt = SaltString::generate(&mut OsRng);
    match Argon2::default().hash_password(password.as_bytes(), &salt) {
        Ok(h) => Some(h.to_string()),
        Err(_) => None,
    }
}

/// Relies on argon2's `PasswordHash::new`: whether it accepts `h` as a
/// PHC-encoded hash.
#[verifier::external_body]
fn phc_parses(h: &str) -> (r: bool)
    ensures
        r == phc_well_formed(h@),
{
    PasswordHash::new(h).is_ok()
}

/// Relies on argon2's `PasswordVerifier::verify_password`, with
/// `PasswordHash::new` converting the stored string into the parsed form
/// the call takes: whether `password` matches the hash encoded in `h`.
#[verifier::external_body]
fn phc_check(h: &str, password: &str) -> (r: bool)
    ensures
        r == phc_verifies(h@, password@),
{
    match PasswordHash::new(h) {
        Ok(parsed) => Argon2::default().verify_password(password.as_bytes(), &parsed).is_ok(),
        Err(_) => false,
    }
}

/// Derive a fresh salted hash for a new password. Each call draws its own
/// random salt, so two calls on the same password give independent hashes;
/// whatever comes back is well formed and verifies against `password`.
pub fn hash_new_password(password: &str) -> (r: Result<String, AuthError>)
    ensures
        r matches Ok(h) ==> phc_well_formed(h@) && phc_verifies(h@, password@),
        r matches Err(e) ==> e == AuthError::HashingFailed,
{
    match generate_phc_hash(password) {
        Some(h) => Ok(h),
        None => Err(AuthError::HashingFailed),
    }
}

/// What checking a candidate password against a stored hash yields: a hash
/// that does not parse is corrupt, a parseable hash that does not match the
/// candidate rejects it, and otherwise the check passes.
pub open spec fn spec_verify_outcome(h: Seq<char>, p: Seq<char>) -> Result<(), AuthError> {
    if !phc_well_formed(h) {
        Err(AuthError::CorruptCredential)
    } else if !phc_verifies(h, p) {
        Err(AuthError::InvalidPassword)
    } else {
        Ok(())
    }
}

/// Check a candidate password against a stored hash, telling a corrupt
/// stored value apart from a mismatched password.
pub fn verify_stored_password(stored_hash: &str, password: &str) -> (r: Result<(), AuthError>)
    ensures
        r == spec_verify_outcome(stored_hash@, password@),
{
    if !phc_parses(stored_hash) {
        Err(AuthError::CorruptCredential)
    } else if !phc_check(stored_hash, password) {
        Err(AuthError::InvalidPassword)
    } else {
        Ok(())
    }
}

} // verus!
