use vstd::prelude::*;

verus! {

/// The failures that the credential operations surface to their caller.
///
/// Every failure is terminal for the single operation that produced it;
/// the caller decides whether to retry or to show the message.
#[derive(Clone, Copy, Debug, PartialEq, Eq, Structural)]
pub enum AuthError {
    /// Registration found the username already present, either in the
    /// pre-check or as a uniqueness violation at insert time.
    UsernameTaken,
    /// Login found no user with the given username.
    UserNotFound,
    /// Login found the user, but the candidate password does not verify
    /// against the stored hash.
    InvalidPassword,
    /// The stored password hash is not a well-formed encoded hash; this
    /// signals storage corruption or tampering, not bad caller input.
    CorruptCredential,
    /// The store could not serve the operation (schema absent, connection
    /// down, or id space exhausted).
    StoreUnavailable,
    /// Deriving a hash for a new password failed.
    HashingFailed,
}

/// The failures of the credential store itself, before they are mapped to
/// the caller-facing errors above.
#[derive(Clone, Copy, Debug, PartialEq, Eq, Structural)]
pub enum StoreError {
    /// An insert would duplicate a username.
    ConstraintViolation,
    /// The store cannot serve the operation at all.
    Unavailable,
}

/// The user-facing text of each failure.
pub open spec fn auth_error_text(e: AuthError) -> Seq<char> {
    match e {
        AuthError::UsernameTaken => "Username already taken"@,
        AuthError::UserNotFound => "User not found"@,
        AuthError::InvalidPassword => "Invalid password"@,
        AuthError::CorruptCredential => "Stored credential is corrupt"@,
        AuthError::StoreUnavailable => "Store unavailable"@,
        AuthError::HashingFailed => "Password hashing failed"@,
    }
}

impl AuthError {
    /// The message shown to the user for this failure.
    pub fn message(&self) -> (r: String)
        ensures
            r@ == auth_error_text(*self),
    {
        match self {
            AuthError::UsernameTaken => "Username already taken".to_owned(),
            AuthError::UserNotFound => "User not found".to_owned(),
            AuthError::InvalidPassword => "Invalid password".to_owned(),
            AuthError::CorruptCredential => "Stored credential is corrupt".to_owned(),
            AuthError::StoreUnavailable => "Store unavailable".to_owned(),
            AuthError::HashingFailed => "Password hashing failed".to_owned(),
        }
    }
}

/// How a store failure is reported to the caller: a uniqueness violation
/// on insert means the username is taken; anything else means the store
/// could not be reached or could not serve the request.
pub open spec fn spec_auth_error_of_store(e: StoreError) -> AuthError {
    match e {
        StoreError::ConstraintViolation => AuthError::UsernameTaken,
        StoreError::Unavailable => AuthError::StoreUnavailable,
    }
}

/// Map a store failure to the caller-facing error.
pub fn auth_error_of_store(e: StoreError) -> (r: AuthError)
    ensures
        r == spec_auth_error_of_store(e),
{
    match e {
        StoreError::ConstraintViolation => AuthError::UsernameTaken,
        StoreError::Unavailable => AuthError::StoreUnavailable,
    }
}

} // verus!
