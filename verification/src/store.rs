use vstd::prelude::*;

use crate::error::StoreError;

verus! {

/// One row of the users table: a surrogate id assigned by the store, the
/// caller-chosen username, and the encoded password hash. The plaintext
/// password is never stored.
#[derive(Debug)]
pub struct User {
    pub id: i32,
    pub username: String,
    pub password_hash: String,
}

impl Clone for User {
    fn clone(&self) -> (r: Self)
        ensures
            r.id == self.id,
            r.username@ == self.username@,
            r.password_hash@ == self.password_hash@,
    {
        User {
            id: self.id,
            username: self.username.clone(),
            password_hash: self.password_hash.clone(),
        }
    }
}

/// The credential store: the rows of the users table, plus whether the
/// schema has been brought up. Creating the table is a one-time startup
/// step; operations against a store whose schema is absent fail as
/// unavailable rather than touching any row.
pub struct CredentialStore {
    pub schema_ready: bool,
    pub users: Vec<User>,
}

impl CredentialStore {
    /// Well-formedness: usernames are unique across all rows, and the store
    /// assigns ids in insertion order starting at 1.
    pub open spec fn wf(self) -> bool {
        &&& forall|i: int, j: int|
            0 <= i < j < self.users@.len() ==> self.users@[i].username@ != self.users@[j].username@
        &&& forall|k: int| 0 <= k < self.users@.len() ==> #[trigger] self.users@[k].id == k + 1
    }

    /// Whether some row holds the username `u`.
    pub open spec fn has_username(self, u: Seq<char>) -> bool {
        exists|k: int| 0 <= k < self.users@.len() && self.users@[k].username@ == u
    }

    /// The position of the row holding `u`; meaningful only when such a row
    /// exists, and unique when the store is well formed.
    pub open spec fn username_index(self, u: Seq<char>) -> int {
        choose|k: int| 0 <= k < self.users@.len() && self.users@[k].username@ == u
    }

    /// The hash stored for username `u`.
    pub open spec fn stored_hash(self, u: Seq<char>) -> Seq<char> {
        self.users@[self.username_index(u)].password_hash@
    }

    /// The id stored for username `u`.
    pub open spec fn stored_id(self, u: Seq<char>) -> int {
        self.users@[self.username_index(u)].id as int
    }

    /// Whether the store can still assign a fresh id.
    pub open spec fn id_space_free(self) -> bool {
        self.users@.len() < i32::MAX
    }

    /// In a well-formed store, a row that holds `u` is the row every
    /// username lookup speaks of: uniqueness makes the chosen index exact.
    pub proof fn lemma_username_at(self, u: Seq<char>, i: int)
        requires
            self.wf(),
            0 <= i < self.users@.len(),
            self.users@[i].username@ == u,
        ensures
            self.has_username(u),
            self.username_index(u) == i,
            self.stored_hash(u) == self.users@[i].password_hash@,
            self.stored_id(u) == self.users@[i].id,
    {
        assert(self.has_username(u));
        let j = self.username_index(u);
        assert(0 <= j < self.users@.len() && self.users@[j].username@ == u);
        if i < j {
            assert(self.users@[i].username@ != self.users@[j].username@);
        } else if j < i {
            assert(self.users@[j].username@ != self.users@[i].username@);
        }
    }

    /// A store starts with no rows and its schema not yet created.
    pub fn new() -> (r: CredentialStore)
        ensures
            r.wf(),
            !r.schema_ready,
            r.users@.len() == 0,
    {
        CredentialStore { schema_ready: false, users: Vec::new() }
    }

    /// The create-table step: bring the schema up if it is absent. The step
    /// is idempotent — on a store whose schema already exists it changes
    /// nothing and is no error.
    pub fn bootstrap(&mut self)
        ensures
            *final(self) == spec_bootstrap(*old(self)),
    {
        self.schema_ready = true;
    }

    /// Exact, case-sensitive lookup by username. Absence is a normal
    /// result, not a failure; the only failure is an unavailable store.
    pub fn find_by_username(&self, username: &str) -> (r: Result<Option<User>, StoreError>)
        requires
            self.wf(),
        ensures
            !self.schema_ready ==> r == Err::<Option<User>, StoreError>(StoreError::Unavailable),
            self.schema_ready && !self.has_username(username@) ==> (r matches Ok(o) && o is None),
            self.schema_ready && self.has_username(username@) ==> (r matches Ok(o)
                && o matches Some(u) && u.id == self.stored_id(username@)
                && u.username@ == username@ && u.password_hash@ == self.stored_hash(username@)),
    {
        if !self.schema_ready {
            return Err(StoreError::Unavailable);
        }
        match scan_username(&self.users, username) {
            Some(i) => {
                proof {
                    self.lemma_username_at(username@, i as int);
                }
                Ok(Some(self.users[i].clone()))
            },
            None => Ok(None),
        }
    }

    /// Insert a new row. Fails with a constraint violation when the
    /// username is already present (the store, not the caller's pre-check,
    /// is the final authority on uniqueness), and as unavailable when the
    /// schema is absent or no fresh id is left; otherwise returns the new
    /// row with its assigned id, and leaves every other row untouched.
    #[verifier::rlimit(50)]
    pub fn insert(&mut self, username: &str, password_hash: &str) -> (r: Result<User, StoreError>)
        requires
            old(self).wf(),
        ensures
            final(self).wf(),
            !old(self).schema_ready ==> r == Err::<User, StoreError>(StoreError::Unavailable)
                && *final(self) == *old(self),
            old(self).schema_ready && old(self).has_username(username@)
                ==> r == Err::<User, StoreError>(StoreError::ConstraintViolation)
                && *final(self) == *old(self),
            old(self).schema_ready && !old(self).has_username(username@)
                && !old(self).id_space_free()
                ==> r == Err::<User, StoreError>(StoreError::Unavailable)
                && *final(self) == *old(self),
            old(self).schema_ready && !old(self).has_username(username@)
                && old(self).id_space_free() ==> (r matches Ok(u)
                && u.id == old(self).users@.len() + 1 && u.username@ == username@
                && u.password_hash@ == password_hash@),
            old(self).schema_ready && !old(self).has_username(username@)
                && old(self).id_space_free() ==> final(self).schema_ready
                && final(self).users@.len() == old(self).users@.len() + 1
                && final(self).has_username(username@)
                && final(self).stored_hash(username@) == password_hash@
                && final(self).stored_id(username@) == old(self).users@.len() + 1,
            old(self).schema_ready && !old(self).has_username(username@)
                && old(self).id_space_free() ==> forall|x: Seq<char>| x != username@
                ==> (#[trigger] final(self).has_username(x) <==> old(self).has_username(x)),
            old(self).schema_ready && !old(self).has_username(username@)
                && old(self).id_space_free() ==> forall|x: Seq<char>|
                x != username@ && old(self).has_username(x)
                ==> #[trigger] final(self).stored_hash(x) == old(self).stored_hash(x),
            old(self).schema_ready && !old(self).has_username(username@)
                && old(self).id_space_free() ==> forall|x: Seq<char>|
                x != username@ && old(self).has_username(x)
                ==> #[trigger] final(self).stored_id(x) == old(self).stored_id(x),
    {
        if !self.schema_ready {
            return Err(StoreError::Unavailable);
        }
        if scan_username(&self.users, username).is_some() {
            return Err(StoreError::ConstraintViolation);
        }
        if self.users.len() >= i32::MAX as usize {
            return Err(StoreError::Unavailable);
        }
        let id: i32 = (self.users.len() + 1) as i32;
        let row = User {
            id,
            username: username.to_owned(),
            password_hash: password_hash.to_owned(),
        };
        let copy = row.clone();
        self.users.push(row);
        proof {
            let n = old(self).users@.len() as int;
            assert(self.users@[n].username@ == username@);
            assert(self.wf());
            self.lemma_username_at(username@, n);
            assert forall|x: Seq<char>| x != username@ implies
                (#[trigger] self.has_username(x) <==> old(self).has_username(x)) by {
                if old(self).has_username(x) {
                    let k = choose|k: int|
                        0 <= k < old(self).users@.len() && old(self).users@[k].username@ == x;
                    assert(self.users@[k].username@ == x);
                }
                if self.has_username(x) {
                    let k = choose|k: int|
                        0 <= k < self.users@.len() && self.users@[k].username@ == x;
                    assert(k < n);
                    assert(old(self).users@[k].username@ == x);
                }
            }
            assert forall|x: Seq<char>| x != username@ && old(self).has_username(x) implies
                #[trigger] self.stored_hash(x) == old(self).stored_hash(x) by {
                let k = old(self).username_index(x);
                assert(0 <= k < old(self).users@.len() && old(self).users@[k].username@ == x);
                assert(self.users@[k] == old(self).users@[k]);
                self.lemma_username_at(x, k);
            }
            assert forall|x: Seq<char>| x != username@ && old(self).has_username(x) implies
                #[trigger] self.stored_id(x) == old(self).stored_id(x) by {
                let k = old(self).username_index(x);
                assert(0 <= k < old(self).users@.len() && old(self).users@[k].username@ == x);
                assert(self.users@[k] == old(self).users@[k]);
                self.lemma_username_at(x, k);
            }
        }
        Ok(copy)
    }
}

/// The state the create-table step leaves behind: the schema is up and the
/// rows are whatever they were.
pub open spec fn spec_bootstrap(s: CredentialStore) -> CredentialStore {
    CredentialStore { schema_ready: true, ..s }
}

/// The create-table step is idempotent: running it twice in sequence leaves
/// exactly the state that running it once leaves.
pub proof fn lemma_bootstrap_idempotent(s: CredentialStore)
    ensures
        spec_bootstrap(spec_bootstrap(s)) == spec_bootstrap(s),
{
}

/// Linear scan for a username among the rows.
fn scan_username(users: &Vec<User>, username: &str) -> (r: Option<usize>)
    ensures
        r matches Some(i) ==> i < users@.len() && users@[i as int].username@ == username@,
        r is None ==> forall|k: int| 0 <= k < users@.len() ==> users@[k].username@ != username@,
{
    let uname: String = username.to_owned();
    let n = users.len();
    let mut i: usize = 0;
    while i < n
        invariant
            i <= n,
            n == users@.len(),
            uname@ == username@,
            forall|k: int| 0 <= k < i ==> users@[k].username@ != username@,
        decreases n - i,
    {
        if users[i].username.eq(&uname) {
            return Some(i);
        }
        i += 1;
    }
    None
}

} // verus!
