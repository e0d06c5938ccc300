use vstd::prelude::*;
use vstd::string::StringExecFns;

use crate::error::AuthError;
use crate::error::auth_error_of_store;
use crate::hashing::hash_new_password;
use crate::hashing::phc_verifies;
use crate::hashing::phc_well_formed;
use crate::hashing::verify_stored_password;
use crate::store::CredentialStore;

verus! {

/// The confirmation text a successful registration returns.
pub open spec fn register_ok_text(u: Seq<char>) -> Seq<char> {
    "User "@ + u + " registered successfully!"@
}

/// The confirmation text a successful login returns.
pub open spec fn login_ok_text(u: Seq<char>) -> Seq<char> {
    "Welcome back "@ + u + "!"@
}

/// Build the confirmation a successful registration returns.
pub fn register_confirmation(username: &str) -> (r: String)
    ensures
        r@ == register_ok_text(username@),
{
    "User ".to_owned().concat(username).concat(" registered successfully!")
}

/// Build the confirmation a successful login returns.
pub fn login_confirmation(username: &str) -> (r: String)
    ensures
        r@ == login_ok_text(username@),
{
    "Welcome back ".to_owned().concat(username).concat("!")
}

/// What a login yields, as a function of the store state and the inputs:
/// an unavailable store fails first; an unknown username is not found; a
/// stored hash that does not parse is corrupt; a candidate password that
/// does not verify is invalid; otherwise the user is greeted by name.
pub open spec fn spec_login(s: CredentialStore, u: Seq<char>, p: Seq<char>) -> Result<
    Seq<char>,
    AuthError,
> {
    if !s.schema_ready {
        Err(AuthError::StoreUnavailable)
    } else if !s.has_username(u) {
        Err(AuthError::UserNotFound)
    } else if !phc_well_formed(s.stored_hash(u)) {
        Err(AuthError::CorruptCredential)
    } else if !phc_verifies(s.stored_hash(u), p) {
        Err(AuthError::InvalidPassword)
    } else {
        Ok(login_ok_text(u))
    }
}

/// Authenticate `username` with the candidate `password`: look the user up,
/// then verify the candidate against the stored self-describing hash. Each
/// call is stateless beyond the store read.
pub fn login(store: &CredentialStore, username: &str, password: &str) -> (r: Result<
    String,
    AuthError,
>)
    requires
        store.wf(),
    ensures
        r matches Ok(m) ==> spec_login(*store, username@, password@) == Ok::<
            Seq<char>,
            AuthError,
        >(m@),
        r matches Err(e) ==> spec_login(*store, username@, password@) == Err::<
            Seq<char>,
            AuthError,
        >(e),
{
    match store.find_by_username(username) {
        Err(_) => Err(AuthError::StoreUnavailable),
        Ok(None) => Err(AuthError::UserNotFound),
        Ok(Some(user)) => match verify_stored_password(user.password_hash.as_str(), password) {
            Err(e) => Err(e),
            Ok(()) => Ok(login_confirmation(user.username.as_str())),
        },
    }
}

/// Insert a credential whose hash has already been derived. Success is owed
/// whenever the schema is up, the username is free and an id is left: the
/// store's uniqueness constraint, not the caller's pre-check, has the last
/// word on a taken username, and its violation is reported as such.
pub fn finish_registration(store: &mut CredentialStore, username: &str, password_hash: &str) -> (r:
    Result<String, AuthError>)
    requires
        old(store).wf(),
    ensures
        final(store).wf(),
        !old(store).schema_ready ==> r == Err::<String, AuthError>(AuthError::StoreUnavailable)
            && *final(store) == *old(store),
        old(store).schema_ready && old(store).has_username(username@)
            ==> r == Err::<String, AuthError>(AuthError::UsernameTaken)
            && *final(store) == *old(store),
        old(store).schema_ready && !old(store).has_username(username@)
            && !old(store).id_space_free()
            ==> r == Err::<String, AuthError>(AuthError::StoreUnavailable)
            && *final(store) == *old(store),
        old(store).schema_ready && !old(store).has_username(username@)
            && old(store).id_space_free() ==> (r matches Ok(m)
            && m@ == register_ok_text(username@)),
        old(store).schema_ready && !old(store).has_username(username@)
            && old(store).id_space_free() ==> final(store).schema_ready
            && final(store).users@.len() == old(store).users@.len() + 1
            && final(store).has_username(username@)
            && final(store).stored_hash(username@) == password_hash@
            && final(store).stored_id(username@) == old(store).users@.len() + 1,
        old(store).schema_ready && !old(store).has_username(username@)
            && old(store).id_space_free() ==> forall|x: Seq<char>| x != username@
            ==> (#[trigger] final(store).has_username(x) <==> old(store).has_username(x)),
        old(store).schema_ready && !old(store).has_username(username@)
            && old(store).id_space_free() ==> forall|x: Seq<char>|
            x != username@ && old(store).has_username(x)
            ==> #[trigger] final(store).stored_hash(x) == old(store).stored_hash(x),
{
    match store.insert(username, password_hash) {
        Err(e) => Err(auth_error_of_store(e)),
        Ok(_row) => Ok(register_confirmation(username)),
    }
}

/// Register a new user: refuse a taken username, then derive a fresh salted
/// hash for the password and insert the row. The pre-check and the insert
/// constraint report a taken username the same way; a failure to derive the
/// hash leaves the store untouched.
pub fn register(store: &mut CredentialStore, username: &str, password: &str) -> (r: Result<
    String,
    AuthError,
>)
    requires
        old(store).wf(),
    ensures
        final(store).wf(),
        !old(store).schema_ready ==> r == Err::<String, AuthError>(AuthError::StoreUnavailable)
            && *final(store) == *old(store),
        old(store).schema_ready && old(store).has_username(username@)
            ==> r == Err::<String, AuthError>(AuthError::UsernameTaken)
            && *final(store) == *old(store),
        old(store).schema_ready && !old(store).has_username(username@) ==> match r {
            Ok(m) => ({
                &&& m@ == register_ok_text(username@)
                &&& final(store).schema_ready
                &&& final(store).users@.len() == old(store).users@.len() + 1
                &&& final(store).has_username(username@)
                &&& phc_well_formed(final(store).stored_hash(username@))
                &&& phc_verifies(final(store).stored_hash(username@), password@)
            }),
            Err(e) => (*final(store) == *old(store) && (e == AuthError::HashingFailed || (!old(
                store,
            ).id_space_free() && e == AuthError::StoreUnavailable))),
        },
        old(store).schema_ready && !old(store).has_username(username@) && (r is Ok)
            ==> forall|x: Seq<char>| x != username@
            ==> (#[trigger] final(store).has_username(x) <==> old(store).has_username(x)),
        old(store).schema_ready && !old(store).has_username(username@) && (r is Ok)
            ==> forall|x: Seq<char>| x != username@ && old(store).has_username(x)
            ==> #[trigger] final(store).stored_hash(x) == old(store).stored_hash(x),
{
    match store.find_by_username(username) {
        Err(_) => Err(AuthError::StoreUnavailable),
        Ok(Some(_existing)) => Err(AuthError::UsernameTaken),
        Ok(None) => match hash_new_password(password) {
            Err(e) => Err(e),
            Ok(h) => finish_registration(store, username, h.as_str()),
        },
    }
}

} // verus!
