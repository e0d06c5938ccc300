use vstd::prelude::*;

use crate::error::AuthError;
use crate::hashing::phc_verifies;
use crate::hashing::phc_well_formed;
use crate::service::login_ok_text;
use crate::service::spec_login;
use crate::store::CredentialStore;

verus! {

/// A fresh registration enables login: in any store state that a successful
/// `register(u, p)` leaves behind — the username present, its stored hash
/// well formed and verifying against `p` — `login(u, p)` succeeds and the
/// confirmation names `u`.
pub proof fn lemma_register_then_login(s: CredentialStore, u: Seq<char>, p: Seq<char>)
    requires
        s.schema_ready,
        s.has_username(u),
        phc_well_formed(s.stored_hash(u)),
        phc_verifies(s.stored_hash(u), p),
    ensures
        spec_login(s, u, p) == Ok::<Seq<char>, AuthError>(login_ok_text(u)),
{
}

/// A candidate password that does not verify against the stored hash is
/// rejected as an invalid password, never as anything else.
pub proof fn lemma_wrong_password_rejected(s: CredentialStore, u: Seq<char>, p2: Seq<char>)
    requires
        s.schema_ready,
        s.has_username(u),
        phc_well_formed(s.stored_hash(u)),
        !phc_verifies(s.stored_hash(u), p2),
    ensures
        spec_login(s, u, p2) == Err::<Seq<char>, AuthError>(AuthError::InvalidPassword),
{
}

/// Login with a username no row holds fails as not found, whatever the
/// candidate password.
pub proof fn lemma_unknown_user_rejected(s: CredentialStore, u: Seq<char>, p: Seq<char>)
    requires
        s.schema_ready,
        !s.has_username(u),
    ensures
        spec_login(s, u, p) == Err::<Seq<char>, AuthError>(AuthError::UserNotFound),
{
}

/// Credentials are independent: when two distinct usernames each hold a
/// well-formed hash that verifies against the same password — as after two
/// registrations with one password, since registering the second user
/// preserves the first user's stored hash — each logs in with it.
pub proof fn lemma_same_password_both_login(
    s: CredentialStore,
    u1: Seq<char>,
    u2: Seq<char>,
    p: Seq<char>,
)
    requires
        s.schema_ready,
        u1 != u2,
        s.has_username(u1),
        s.has_username(u2),
        phc_well_formed(s.stored_hash(u1)),
        phc_well_formed(s.stored_hash(u2)),
        phc_verifies(s.stored_hash(u1), p),
        phc_verifies(s.stored_hash(u2), p),
    ensures
        spec_login(s, u1, p) == Ok::<Seq<char>, AuthError>(login_ok_text(u1)),
        spec_login(s, u2, p) == Ok::<Seq<char>, AuthError>(login_ok_text(u2)),
{
}

} // verus!
