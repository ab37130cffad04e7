//! The credential record store: for each username, its user and its PHC
//! password hash. Usernames and user ids are unique.
use vstd::prelude::*;
use crate::authentication::{
    validate_credentials, AuthError, Credentials, DefaultHash, StoredCredentials, UserId,
};
use crate::hasher::{argon2_accepts, HashWork};

verus! {

/// One stored user.
pub struct UserRecord {
    pub user_id: UserId,
    pub username: String,
    pub password_hash: String,
}

/// A username or a user id that is already taken.
#[derive(Debug, Clone, Copy, PartialEq, Eq, Structural)]
pub struct DuplicateUser;

/// No user has the given id.
#[derive(Debug, Clone, Copy, PartialEq, Eq, Structural)]
pub struct UnknownUser;

pub struct CredentialStore {
    users: Vec<UserRecord>,
}

/// Whether some username of `m` belongs to the user `id`.
pub open spec fn has_user_id(m: Map<Seq<char>, (UserId, Seq<char>)>, id: UserId) -> bool {
    exists|n: Seq<char>| #[trigger] m.contains_key(n) && m[n].0 == id
}

/// No two usernames of `m` belong to the same user.
pub open spec fn user_ids_unique(m: Map<Seq<char>, (UserId, Seq<char>)>) -> bool {
    forall|a: Seq<char>, b: Seq<char>|
        #[trigger] m.contains_key(a) && #[trigger] m.contains_key(b) && m[a].0 == m[b].0 ==> a == b
}

/// The outcome of validating `password` for `username` against the store
/// `m`: the user when the username has a record whose hash accepts the
/// password, `InvalidCredentials` otherwise.
pub open spec fn validation_in(m: Map<Seq<char>, (UserId, Seq<char>)>, username: Seq<char>, password: Seq<
    char,
>) -> Result<UserId, AuthError> {
    if m.contains_key(username) && argon2_accepts(password, m[username].1) {
        Ok(m[username].0)
    } else {
        Err(AuthError::InvalidCredentials)
    }
}

/// The username that user `id` has in `m` (meaningful where
/// `has_user_id(m, id)`).
pub open spec fn username_for(m: Map<Seq<char>, (UserId, Seq<char>)>, id: UserId) -> Seq<char> {
    choose|n: Seq<char>| #[trigger] m.contains_key(n) && m[n].0 == id
}

/// `m` with the hash of user `id` replaced by `h`.
pub open spec fn with_hash(m: Map<Seq<char>, (UserId, Seq<char>)>, id: UserId, h: Seq<char>) -> Map<
    Seq<char>,
    (UserId, Seq<char>),
> {
    Map::new(|n: Seq<char>| m.contains_key(n), |n: Seq<char>| if m[n].0 == id { (id, h) } else { m[n] })
}

impl View for CredentialStore {
    /// username => (user id, password hash)
    type V = Map<Seq<char>, (UserId, Seq<char>)>;

    closed spec fn view(&self) -> Map<Seq<char>, (UserId, Seq<char>)> {
        Map::new(
            |n: Seq<char>| exists|i: int| 0 <= i < self.users@.len() && #[trigger] self.users@[i].username@ == n,
            |n: Seq<char>|
                {
                    let i = choose|i: int| 0 <= i < self.users@.len() && #[trigger] self.users@[i].username@ == n;
                    (self.users@[i].user_id, self.users@[i].password_hash@)
                },
        )
    }
}

impl CredentialStore {
    /// Usernames and user ids are each unique.
    pub closed spec fn well_formed(&self) -> bool {
        forall|i: int, j: int|
            0 <= i < self.users@.len() && 0 <= j < self.users@.len() && i != j ==> {
                &&& #[trigger] self.users@[i].username@ != #[trigger] self.users@[j].username@
                &&& self.users@[i].user_id != self.users@[j].user_id
            }
    }

    proof fn lemma_view_at(&self, i: int)
        requires
            self.well_formed(),
            0 <= i < self.users@.len(),
        ensures
            self@.contains_key(self.users@[i].username@),
            self@[self.users@[i].username@] == (self.users@[i].user_id, self.users@[i].password_hash@),
    {
        let n = self.users@[i].username@;
        assert(self.users@[i].username@ == n);
        let j = choose|j: int| 0 <= j < self.users@.len() && #[trigger] self.users@[j].username@ == n;
        assert(i == j);
    }

    /// Each user id belongs to one username at most.
    pub proof fn lemma_ids_unique(&self)
        requires
            self.well_formed(),
        ensures
            user_ids_unique(self@),
    {
        assert forall|a: Seq<char>, b: Seq<char>|
            #[trigger] self@.contains_key(a) && #[trigger] self@.contains_key(b) && self@[a].0
                == self@[b].0 implies a == b by {
            let i = choose|i: int| 0 <= i < self.users@.len() && #[trigger] self.users@[i].username@ == a;
            let j = choose|j: int| 0 <= j < self.users@.len() && #[trigger] self.users@[j].username@ == b;
            self.lemma_view_at(i);
            self.lemma_view_at(j);
        }
    }

    pub fn new() -> (r: CredentialStore)
        ensures
            r.well_formed(),
            r@ == Map::<Seq<char>, (UserId, Seq<char>)>::empty(),
    {
        let r = CredentialStore { users: Vec::new() };
        assert(r@ =~= Map::<Seq<char>, (UserId, Seq<char>)>::empty());
        r
    }

    /// Index of the record of `username`, if any.
    fn find_username(&self, username: &str) -> (r: Option<usize>)
        requires
            self.well_formed(),
        ensures
            r is None <==> !self@.contains_key(username@),
            r matches Some(i) ==> i < self.users@.len() && self.users@[i as int].username@ == username@,
    {
        let wanted = String::from_str(username);
        let mut i: usize = 0;
        while i < self.users.len()
            invariant
                self.well_formed(),
                wanted@ == username@,
                i <= self.users@.len(),
                forall|k: int| 0 <= k < i ==> #[trigger] self.users@[k].username@ != username@,
            decreases self.users@.len() - i,
        {
            if self.users[i].username == wanted {
                return Some(i);
            }
            i = i + 1;
        }
        None
    }

    /// Index of the record of user `user_id`, if any.
    fn find_user_id(&self, user_id: UserId) -> (r: Option<usize>)
        requires
            self.well_formed(),
        ensures
            r is None <==> !has_user_id(self@, user_id),
            r matches Some(i) ==> i < self.users@.len() && self.users@[i as int].user_id == user_id,
    {
        let mut i: usize = 0;
        while i < self.users.len()
            invariant
                self.well_formed(),
                i <= self.users@.len(),
                forall|k: int| 0 <= k < i ==> #[trigger] self.users@[k].user_id != user_id,
            decreases self.users@.len() - i,
        {
            if self.users[i].user_id.0 == user_id.0 {
                proof {
                    self.lemma_view_at(i as int);
                }
                return Some(i);
            }
            i = i + 1;
        }
        proof {
            if has_user_id(self@, user_id) {
                let n = choose|n: Seq<char>| #[trigger] self@.contains_key(n) && self@[n].0 == user_id;
                let k = choose|k: int| 0 <= k < self.users@.len() && #[trigger] self.users@[k].username@ == n;
                self.lemma_view_at(k);
            }
        }
        None
    }

    /// Adds a user; refused when its username or its id is already taken.
    pub fn add_user(&mut self, user_id: UserId, username: String, password_hash: String) -> (r: Result<
        (),
        DuplicateUser,
    >)
        requires
            old(self).well_formed(),
        ensures
            final(self).well_formed(),
            r is Ok <==> !old(self)@.contains_key(username@) && !has_user_id(old(self)@, user_id),
            r is Ok ==> final(self)@ == old(self)@.insert(username@, (user_id, password_hash@)),
            r is Err ==> final(self)@ == old(self)@,
    {
        if self.find_username(username.as_str()).is_some() || self.find_user_id(user_id).is_some() {
            return Err(DuplicateUser);
        }
        let ghost before = *self;
        let ghost name = username@;
        let ghost h = password_hash@;
        self.users.push(UserRecord { user_id, username, password_hash });
        proof {
            let n = self.users@.len() - 1;
            assert forall|k: int| 0 <= k < n implies self.users@[k] == before.users@[k] by {}
            assert forall|k: int| 0 <= k < n implies #[trigger] self.users@[k].username@ != name
                && self.users@[k].user_id != user_id by {
                before.lemma_view_at(k);
            }
            assert forall|a: int, b: int|
                0 <= a < self.users@.len() && 0 <= b < self.users@.len() && a != b implies {
                    &&& #[trigger] self.users@[a].username@ != #[trigger] self.users@[b].username@
                    &&& self.users@[a].user_id != self.users@[b].user_id
                } by {
                if a < n && b < n {
                    assert(before.users@[a].username@ != before.users@[b].username@);
                }
            }
            assert(self.well_formed());
            assert forall|m: Seq<char>| #[trigger] self@.contains_key(m) == before@.insert(name, (user_id, h)).contains_key(m) by {
                if before@.contains_key(m) {
                    let k = choose|k: int| 0 <= k < before.users@.len() && #[trigger] before.users@[k].username@ == m;
                    assert(self.users@[k].username@ == m);
                }
                if self@.contains_key(m) && m != name {
                    let k = choose|k: int| 0 <= k < self.users@.len() && #[trigger] self.users@[k].username@ == m;
                    assert(before.users@[k].username@ == m);
                }
                if m == name {
                    assert(self.users@[n].username@ == m);
                }
            }
            assert forall|m: Seq<char>| #[trigger] self@.contains_key(m) implies self@[m] == before@.insert(name, (user_id, h))[m] by {
                let k = choose|k: int| 0 <= k < self.users@.len() && #[trigger] self.users@[k].username@ == m;
                self.lemma_view_at(k);
                if k < n {
                    before.lemma_view_at(k);
                }
            }
            assert(self@ =~= before@.insert(name, (user_id, h)));
        }
        Ok(())
    }

    /// The record stored for `username`; `None` when there is none, which
    /// is no error.
    pub fn lookup(&self, username: &str) -> (r: Option<StoredCredentials>)
        requires
            self.well_formed(),
        ensures
            r is None <==> !self@.contains_key(username@),
            r matches Some(c) ==> self@[username@] == (c.user_id, c.password_hash@),
    {
        match self.find_username(username) {
            None => None,
            Some(i) => {
                proof {
                    self.lemma_view_at(i as int);
                }
                Some(
                    StoredCredentials {
                        user_id: self.users[i].user_id,
                        password_hash: self.users[i].password_hash.clone(),
                    },
                )
            },
        }
    }

    /// Validates `credentials` against this store: the record of the
    /// username is looked up, and one hash verification runs, recorded in
    /// `work`, against the stored hash or, when there is no record, against
    /// `default_hash`.
    pub fn validate(&self, credentials: Credentials, default_hash: &DefaultHash, work: &mut HashWork) -> (r:
        Result<UserId, AuthError>)
        requires
            self.well_formed(),
        ensures
            r == validation_in(self@, credentials.username@, credentials.password@),
            final(work)@ == old(work)@.push(
                if self@.contains_key(credentials.username@) {
                    self@[credentials.username@].1
                } else {
                    default_hash@
                },
            ),
    {
        let lookup = self.lookup(credentials.username.as_str());
        validate_credentials(credentials, Ok(lookup), default_hash, work)
    }

    /// The username of user `user_id`, if there is such a user.
    pub fn username_of(&self, user_id: UserId) -> (r: Option<String>)
        requires
            self.well_formed(),
        ensures
            r is None <==> !has_user_id(self@, user_id),
            r matches Some(n) ==> self@.contains_key(n@) && self@[n@].0 == user_id,
    {
        match self.find_user_id(user_id) {
            None => None,
            Some(i) => {
                proof {
                    self.lemma_view_at(i as int);
                }
                Some(self.users[i].username.clone())
            },
        }
    }

    /// Overwrites the password hash of user `user_id`; nothing else changes.
    pub fn update_hash(&mut self, user_id: UserId, new_hash: String) -> (r: Result<(), UnknownUser>)
        requires
            old(self).well_formed(),
        ensures
            final(self).well_formed(),
            r is Ok <==> has_user_id(old(self)@, user_id),
            r is Ok ==> final(self)@ == with_hash(old(self)@, user_id, new_hash@),
            r is Err ==> final(self)@ == old(self)@,
    {
        let i = match self.find_user_id(user_id) {
            None => {
                return Err(UnknownUser);
            },
            Some(i) => i,
        };
        let ghost before = *self;
        let ghost h = new_hash@;
        self.users[i].password_hash = new_hash;
        proof {
            assert forall|k: int| 0 <= k < self.users@.len() && k != i implies self.users@[k] == before.users@[k] by {}
            assert forall|a: int, b: int|
                0 <= a < self.users@.len() && 0 <= b < self.users@.len() && a != b implies {
                    &&& #[trigger] self.users@[a].username@ != #[trigger] self.users@[b].username@
                    &&& self.users@[a].user_id != self.users@[b].user_id
                } by {
                assert(before.users@[a].username@ != before.users@[b].username@);
            }
            assert(self.well_formed());
            assert forall|m: Seq<char>| #[trigger] self@.contains_key(m) == before@.contains_key(m) by {
                if before@.contains_key(m) {
                    let k = choose|k: int| 0 <= k < before.users@.len() && #[trigger] before.users@[k].username@ == m;
                    assert(self.users@[k].username@ == m);
                }
                if self@.contains_key(m) {
                    let k = choose|k: int| 0 <= k < self.users@.len() && #[trigger] self.users@[k].username@ == m;
                    assert(before.users@[k].username@ == m);
                }
            }
            assert forall|m: Seq<char>| #[trigger] self@.contains_key(m) implies self@[m] == with_hash(before@, user_id, h)[m] by {
                let k = choose|k: int| 0 <= k < self.users@.len() && #[trigger] self.users@[k].username@ == m;
                self.lemma_view_at(k);
                before.lemma_view_at(k);
                if k != i {
                    assert(before.users@[k].username@ != before.users@[i as int].username@);
                    assert(before.users@[k].user_id != before.users@[i as int].user_id);
                }
            }
            assert(self@ =~= with_hash(before@, user_id, h));
        }
        Ok(())
    }
}

} // verus!
