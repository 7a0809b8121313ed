use vstd::prelude::*;
use vstd::string::*;

use crate::error::{is_internal, status_of, Error, ErrorKind, INTERNAL_MESSAGE};

verus! {

/// A stored user: identifier, normalized email and password credential.
pub struct UserDb {
    pub id: i64,
    pub email: String,
    pub password: String,
}

impl View for UserDb {
    type V = (i64, Seq<char>, Seq<char>);

    open spec fn view(&self) -> (i64, Seq<char>, Seq<char>) {
        (self.id, self.email@, self.password@)
    }
}

impl UserDb {
    pub fn new(id: i64, email: String, password: String) -> (r: UserDb)
        ensures
            r.id == id,
            r.email == email,
            r.password == password,
    {
        UserDb { id, email, password }
    }

    /// A copy of this record.
    pub fn duplicate(&self) -> (r: UserDb)
        ensures
            r@ == self@,
    {
        UserDb { id: self.id, email: self.email.clone(), password: self.password.clone() }
    }
}

impl Default for UserDb {
    fn default() -> (r: UserDb)
        ensures
            r.id == 0,
            r@.1.len() == 0,
            r@.2.len() == 0,
    {
        UserDb { id: 0, email: String::new(), password: String::new() }
    }
}

/// The first record of `users` stored under `email`.
pub open spec fn lookup(users: Seq<(i64, Seq<char>, Seq<char>)>, email: Seq<char>) -> Option<
    (i64, Seq<char>, Seq<char>),
>
    decreases users.len(),
{
    if users.len() == 0 {
        None
    } else if users[0].1 == email {
        Some(users[0])
    } else {
        lookup(users.skip(1), email)
    }
}

/// Records are numbered from one in order of creation, and no two share an
/// email.
pub open spec fn users_wf(users: Seq<(i64, Seq<char>, Seq<char>)>) -> bool {
    &&& forall|i: int| 0 <= i < users.len() ==> users[i].0 == i + 1
    &&& forall|i: int, j: int|
        0 <= i < j < users.len() ==> users[i].1 != users[j].1
}

/// Adding a record after the others changes no lookup that already found
/// one, and finds the new record only under its own email.
pub proof fn lemma_lookup_push(
    users: Seq<(i64, Seq<char>, Seq<char>)>,
    rec: (i64, Seq<char>, Seq<char>),
    email: Seq<char>,
)
    ensures
        lookup(users.push(rec), email) == (match lookup(users, email) {
            Some(u) => Some(u),
            None => if rec.1 == email {
                Some(rec)
            } else {
                None
            },
        }),
    decreases users.len(),
{
    if users.len() > 0 {
        assert(users.push(rec)[0] == users[0]);
        assert(users.push(rec).skip(1) =~= users.skip(1).push(rec));
        lemma_lookup_push(users.skip(1), rec, email);
    } else {
        let empty = Seq::<(i64, Seq<char>, Seq<char>)>::empty();
        assert(users.push(rec).skip(1) =~= empty);
        assert(lookup(empty, email) is None);
        assert(users.push(rec)[0] == rec);
    }
}

proof fn lemma_lookup_found(users: Seq<(i64, Seq<char>, Seq<char>)>, email: Seq<char>)
    ensures
        lookup(users, email) is None <==> forall|i: int| 0 <= i < users.len() ==> users[i].1 != email,
        lookup(users, email) matches Some(u) ==> exists|i: int| 0 <= i < users.len() && users[i] == u && u.1 == email,
    decreases users.len(),
{
    if users.len() > 0 {
        lemma_lookup_found(users.skip(1), email);
        if users[0].1 != email {
            assert forall|i: int| 0 <= i < users.len() && users[i].1 == email implies i >= 1 && users.skip(1)[i - 1].1 == email by {}
            if let Some(u) = lookup(users, email) {
                let k = choose|k: int| 0 <= k < users.skip(1).len() && users.skip(1)[k] == u && u.1 == email;
                assert(users[k + 1] == u);
            }
        }
    }
}

/// The email-keyed user store kept in memory.
pub struct MemoryStore {
    users: Vec<UserDb>,
}

impl View for MemoryStore {
    type V = Seq<(i64, Seq<char>, Seq<char>)>;

    closed spec fn view(&self) -> Seq<(i64, Seq<char>, Seq<char>)> {
        self.users@.map_values(|u: UserDb| u@)
    }
}

/// The records after `email` is stored with `hash` as the next user.
pub open spec fn with_user(users: Seq<(i64, Seq<char>, Seq<char>)>, email: Seq<char>, hash: Seq<char>) -> Seq<
    (i64, Seq<char>, Seq<char>),
> {
    users.push(((users.len() + 1) as i64, email, hash))
}

impl MemoryStore {
    pub open spec fn wf(&self) -> bool {
        users_wf(self@)
    }

    /// An empty store.
    pub fn new() -> (r: MemoryStore)
        ensures
            r.wf(),
            r@.len() == 0,
    {
        let r = MemoryStore { users: Vec::new() };
        assert(r@ =~= Seq::<(i64, Seq<char>, Seq<char>)>::empty());
        r
    }

    /// How many users are stored.
    pub fn len(&self) -> (r: usize)
        ensures
            r == self@.len(),
    {
        self.users.len()
    }

    /// The user stored under `email`, compared exactly.
    pub fn find_by_email(&self, email: &str) -> (r: Option<UserDb>)
        ensures
            match r {
                Some(u) => lookup(self@, email@) == Some(u@),
                None => lookup(self@, email@) is None,
            },
    {
        let key = String::from_str(email);
        let mut i: usize = 0;
        assert(self@.skip(0) =~= self@);
        while i < self.users.len()
            invariant
                0 <= i <= self.users@.len(),
                key@ == email@,
                lookup(self@, email@) == lookup(self@.skip(i as int), email@),
            decreases self.users@.len() - i,
        {
            assert(self@.skip(i as int)[0] == self.users@[i as int]@);
            assert(self@.skip(i as int).skip(1) =~= self@.skip(i + 1));
            if self.users[i].email == key {
                return Some(self.users[i].duplicate());
            }
            i = i + 1;
        }
        None
    }

    /// The user numbered `id`, without its credential: the returned record's
    /// password is empty.
    pub fn find_by_id(&self, id: i64) -> (r: Option<UserDb>)
        requires
            self.wf(),
        ensures
            match r {
                Some(u) => 1 <= id <= self@.len() && u.id == id && u@.1 == self@[id - 1].1
                    && u@.2.len() == 0,
                None => !(1 <= id <= self@.len()),
            },
    {
        if id < 1 || id as u64 > self.users.len() as u64 {
            return None;
        }
        let stored = &self.users[(id - 1) as usize];
        assert(stored@ == self@[id - 1]);
        Some(UserDb::new(id, stored.email.clone(), String::new()))
    }

    /// Stores a new user under `email` and returns its number. Fails with a
    /// conflict where the email is taken, and with a store error where no
    /// further number is left; either way the store is unchanged.
    pub fn create(&mut self, email: String, password: String) -> (r: Result<i64, Error>)
        requires
            old(self).wf(),
        ensures
            final(self).wf(),
            lookup(old(self)@, email@) is Some ==> (r matches Err(e) && e.kind == ErrorKind::Conflict
                && final(self)@ == old(self)@),
            lookup(old(self)@, email@) is None && old(self)@.len() >= i64::MAX ==> (r matches Err(e)
                && e.kind == ErrorKind::Store && final(self)@ == old(self)@),
            lookup(old(self)@, email@) is None && old(self)@.len() < i64::MAX ==> (r == Ok::<i64, Error>(
                (old(self)@.len() + 1) as i64,
            ) && final(self)@ == with_user(old(self)@, email@, password@)),
        r matches Err(e) ==> e.http_code == status_of(e.kind),
        r matches Err(e) ==> (is_internal(e.kind) ==> e.message@ == INTERNAL_MESSAGE@),
    {
        if self.find_by_email(email.as_str()).is_some() {
            return Err(Error::new(ErrorKind::Conflict, "email already registered"));
        }
        let n = self.users.len();
        if n as u64 >= i64::MAX as u64 {
            return Err(Error::new(ErrorKind::Store, "store is full"));
        }
        let id = (n as u64 + 1) as i64;
        proof {
            lemma_lookup_found(self@, email@);
        }
        let ghost before = self@;
        self.users.push(UserDb::new(id, email, password));
        assert(self@ =~= with_user(before, self.users@[n as int].email@, self.users@[n as int].password@));
        Ok(id)
    }
}

} // verus!
