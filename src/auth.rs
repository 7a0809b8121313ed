use vstd::prelude::*;

use crate::api::{credentials_error, LoginPayload, RegisterPayload, User};
use crate::error::{is_internal, status_of, Error, ErrorKind, INTERNAL_MESSAGE};
use crate::password::{bcrypt_header, hash_password, lower_of, normalize_email, password_matches, verify_password};
use crate::store::{lemma_lookup_push, lookup, users_wf, with_user, MemoryStore, UserDb};
use crate::token::{claims_for, create_token, lemma_issued_token_verifies, token_subject, token_text, TokenSettings};

verus! {

/// Shown when no user is stored under an email.
pub const UNKNOWN_IDENTITY: &'static str = "identity not found";

/// Shown when a password does not match the stored credential.
pub const CREDENTIAL_MISMATCH: &'static str = "credential mismatch";

/// What the credential service is configured with: how tokens are issued and
/// the bcrypt cost of new credentials.
pub struct AuthSettings {
    pub token: TokenSettings,
    pub hash_cost: u32,
}

/// A call's result as its token text or its error kind.
pub open spec fn outcome(r: Result<String, Error>) -> Result<Seq<char>, ErrorKind> {
    match r {
        Ok(t) => Ok(t@),
        Err(e) => Err(e.kind),
    }
}

/// What logging in with `email` and `password` against `users` yields at time
/// `now`: the token, or the kind of failure.
pub open spec fn login_outcome(
    users: Seq<(i64, Seq<char>, Seq<char>)>,
    email: Seq<char>,
    password: Seq<char>,
    key: Seq<u8>,
    validity: u64,
    now: u64,
) -> Result<Seq<char>, ErrorKind> {
    if credentials_error(email, password) is Some {
        Err(ErrorKind::InvalidInput)
    } else {
        match lookup(users, lower_of(email)) {
            None => Err(ErrorKind::Unauthorized),
            Some(u) => if !password_matches(password, u.2) {
                Err(ErrorKind::Unauthorized)
            } else if now + validity > u64::MAX {
                Err(ErrorKind::SystemTime)
            } else {
                Ok(token_text(claims_for(u.0, now, validity), key))
            },
        }
    }
}

/// Decides a login from the record found under the email, if any: the
/// record's number where the password matches its credential. A credential
/// that cannot be checked does not match.
pub fn check_credential(user: Option<UserDb>, password: &str) -> (r: Result<i64, Error>)
    ensures
        match user {
            None => r matches Err(e) && e.kind == ErrorKind::Unauthorized && e.message@
                == UNKNOWN_IDENTITY@,
            Some(u) => if password_matches(password@, u.password@) {
                r == Ok::<i64, Error>(u.id)
            } else {
                r matches Err(e) && e.kind == ErrorKind::Unauthorized && e.message@
                    == CREDENTIAL_MISMATCH@
            },
        },
        r matches Err(e) ==> e.http_code == status_of(e.kind),
{
    let u = match user {
        Some(u) => u,
        None => {
            return Err(Error::new(ErrorKind::Unauthorized, UNKNOWN_IDENTITY));
        },
    };
    let matched = match verify_password(password, u.password.as_str()) {
        Ok(b) => b,
        Err(_) => false,
    };
    if matched {
        Ok(u.id)
    } else {
        Err(Error::new(ErrorKind::Unauthorized, CREDENTIAL_MISMATCH))
    }
}

/// Checks a registration and builds the record to store: normalized email
/// and a fresh credential for the password. The record's number is left to
/// the store. Fails with a hash error where hashing does.
pub fn prepare_registration(payload: &RegisterPayload, hash_cost: u32) -> (r: Result<UserDb, Error>)
    ensures
        credentials_error(payload.email@, payload.password@) matches Some(m) ==> (r matches Err(e)
            && e.kind == ErrorKind::InvalidInput && e.message@ == m),
        credentials_error(payload.email@, payload.password@) is None ==> (r is Ok || (r matches Err(e)
            && e.kind == ErrorKind::Hash)),
        r matches Ok(u) ==> credentials_error(payload.email@, payload.password@) is None && u.id == 0
            && u.email@ == lower_of(payload.email@) && password_matches(payload.password@, u.password@)
            && u.password@.len() == 60 && u.password@.take(7) == bcrypt_header(hash_cost),
        r matches Err(e) ==> e.kind == ErrorKind::InvalidInput || e.kind == ErrorKind::Hash,
        r matches Err(e) ==> e.http_code == status_of(e.kind),
        r matches Err(e) ==> (is_internal(e.kind) ==> e.message@ == INTERNAL_MESSAGE@),
{
    if let Err(m) = payload.validate() {
        return Err(Error::new(ErrorKind::InvalidInput, m.as_str()));
    }
    let email = normalize_email(payload.email.as_str());
    match hash_password(payload.password.as_str(), hash_cost) {
        Ok(h) => Ok(UserDb::new(0, email, h)),
        Err(_) => Err(Error::new(ErrorKind::Hash, "password hashing failed")),
    }
}

/// Checks a login request and gives the form of its email to look up.
pub fn prepare_login(payload: &LoginPayload) -> (r: Result<String, Error>)
    ensures
        match credentials_error(payload.email@, payload.password@) {
            Some(m) => r matches Err(e) && e.kind == ErrorKind::InvalidInput && e.message@ == m
                && e.http_code == 400,
            None => r matches Ok(email) && email@ == lower_of(payload.email@),
        },
{
    if let Err(m) = payload.validate() {
        return Err(Error::new(ErrorKind::InvalidInput, m.as_str()));
    }
    Ok(normalize_email(payload.email.as_str()))
}

/// The identity behind a record found by number; no record is an
/// authorization failure.
pub fn resolve_user(found: Option<UserDb>) -> (r: Result<User, Error>)
    ensures
        match found {
            Some(u) => r matches Ok(x) && x.id == u.id && x.email == u.email,
            None => r matches Err(e) && e.kind == ErrorKind::Unauthorized && e.http_code == 401
                && e.message@ == UNKNOWN_IDENTITY@,
        },
{
    match found {
        Some(u) => Ok(User::new(u.id, u.email)),
        None => Err(Error::new(ErrorKind::Unauthorized, UNKNOWN_IDENTITY)),
    }
}

/// Registers a user in `store` and returns a token for it, issued at `now`.
/// The email is stored lowercase; an email already stored is a conflict. Any
/// failure leaves the store as it was. The check for the email and the insert
/// happen under one exclusive borrow of the store, so no other registration
/// can come between them.
pub fn register(store: &mut MemoryStore, payload: &RegisterPayload, settings: &AuthSettings, now: u64) -> (r:
    Result<String, Error>)
    requires
        old(store).wf(),
        settings.token.validity_secs > 0,
    ensures
        final(store).wf(),
        r is Err ==> final(store)@ == old(store)@,
        r matches Err(e) ==> e.http_code == status_of(e.kind),
        r matches Err(e) ==> (is_internal(e.kind) ==> e.message@ == INTERNAL_MESSAGE@),
        credentials_error(payload.email@, payload.password@) matches Some(m) ==> (r matches Err(e)
            && e.kind == ErrorKind::InvalidInput && e.message@ == m),
        credentials_error(payload.email@, payload.password@) is None && lookup(
            old(store)@,
            lower_of(payload.email@),
        ) is Some ==> (r matches Err(e) && e.kind == ErrorKind::Conflict),
        r matches Ok(t) ==> ({
            let id = (old(store)@.len() + 1) as i64;
            let h = final(store)@.last().2;
            &&& credentials_error(payload.email@, payload.password@) is None
            &&& lookup(old(store)@, lower_of(payload.email@)) is None
            &&& password_matches(payload.password@, h)
            &&& h.len() == 60 && h.take(7) == bcrypt_header(settings.hash_cost)
            &&& final(store)@ == with_user(old(store)@, lower_of(payload.email@), h)
            &&& t@ == token_text(claims_for(id, now, settings.token.validity_secs), settings.token.secret@)
        }),
        credentials_error(payload.email@, payload.password@) is None && lookup(
            old(store)@,
            lower_of(payload.email@),
        ) is None && old(store)@.len() < i64::MAX && now + settings.token.validity_secs <= u64::MAX
            ==> (r is Ok || (r matches Err(e) && e.kind == ErrorKind::Hash)),
        credentials_error(payload.email@, payload.password@) is None && lookup(
            old(store)@,
            lower_of(payload.email@),
        ) is None && old(store)@.len() >= i64::MAX ==> (r matches Err(e) && e.kind
            == ErrorKind::Store),
        credentials_error(payload.email@, payload.password@) is None && lookup(
            old(store)@,
            lower_of(payload.email@),
        ) is None && old(store)@.len() < i64::MAX && now + settings.token.validity_secs > u64::MAX
            ==> (r matches Err(e) && e.kind == ErrorKind::SystemTime),
{
    if let Err(m) = payload.validate() {
        return Err(Error::new(ErrorKind::InvalidInput, m.as_str()));
    }
    let email = normalize_email(payload.email.as_str());
    if store.find_by_email(email.as_str()).is_some() {
        return Err(Error::new(ErrorKind::Conflict, "email already registered"));
    }
    let n = store.len();
    if n as u64 >= i64::MAX as u64 {
        return Err(Error::new(ErrorKind::Store, "store is full"));
    }
    let id = (n as u64 + 1) as i64;
    let token = create_token(id, now, &settings.token)?;
    let hash = match hash_password(payload.password.as_str(), settings.hash_cost) {
        Ok(h) => h,
        Err(_) => {
            return Err(Error::new(ErrorKind::Hash, "password hashing failed"));
        },
    };
    let created = store.create(email, hash);
    match created {
        Ok(_) => Ok(token),
        Err(e) => Err(e),
    }
}

/// Logs in against `store` and returns a token issued at `now`. An unknown
/// email and a wrong password fail alike, as authorization failures.
pub fn login(store: &MemoryStore, payload: &LoginPayload, settings: &AuthSettings, now: u64) -> (r: Result<
    String,
    Error,
>)
    requires
        settings.token.validity_secs > 0,
    ensures
        outcome(r) == login_outcome(
            store@,
            payload.email@,
            payload.password@,
            settings.token.secret@,
            settings.token.validity_secs,
            now,
        ),
        r matches Err(e) ==> e.http_code == status_of(e.kind),
        r matches Err(e) ==> (is_internal(e.kind) ==> e.message@ == INTERNAL_MESSAGE@),
        credentials_error(payload.email@, payload.password@) matches Some(m) ==> (r matches Err(e)
            && e.message@ == m),
        credentials_error(payload.email@, payload.password@) is None && lookup(
            store@,
            lower_of(payload.email@),
        ) is None ==> (r matches Err(e) && e.message@ == UNKNOWN_IDENTITY@),
        credentials_error(payload.email@, payload.password@) is None ==> (lookup(
            store@,
            lower_of(payload.email@),
        ) matches Some(u) ==> !password_matches(payload.password@, u.2) ==> (r matches Err(e)
            && e.message@ == CREDENTIAL_MISMATCH@)),
{
    let email = prepare_login(payload)?;
    let found = store.find_by_email(email.as_str());
    let id = check_credential(found, payload.password.as_str())?;
    create_token(id, now, &settings.token)
}

/// The user numbered `id` in `store`; an unknown number is an authorization
/// failure.
pub fn get_user_by_id(store: &MemoryStore, id: i64) -> (r: Result<User, Error>)
    requires
        store.wf(),
    ensures
        1 <= id <= store@.len() ==> (r matches Ok(u) && u.id == id && u.email@ == store@[id - 1].1),
        !(1 <= id <= store@.len()) ==> (r matches Err(e) && e.kind == ErrorKind::Unauthorized
            && e.http_code == 401 && e.message@ == UNKNOWN_IDENTITY@),
{
    resolve_user(store.find_by_id(id))
}

/// A user registered with a valid, unseen email can then log in with the same
/// email and password, and the token that login returns verifies, up to its
/// expiry, to the number the user was stored under.
pub proof fn lemma_register_then_login(
    users: Seq<(i64, Seq<char>, Seq<char>)>,
    email: Seq<char>,
    password: Seq<char>,
    hash: Seq<char>,
    key: Seq<u8>,
    validity: u64,
    now: u64,
    at: u64,
)
    requires
        users_wf(users),
        credentials_error(email, password) is None,
        lookup(users, lower_of(email)) is None,
        password_matches(password, hash),
        users.len() < i64::MAX,
        now + validity <= u64::MAX,
        at <= now + validity,
    ensures
        ({
            let id = (users.len() + 1) as i64;
            let t = token_text(claims_for(id, now, validity), key);
            &&& login_outcome(with_user(users, lower_of(email), hash), email, password, key, validity, now)
                == Ok::<Seq<char>, ErrorKind>(t)
            &&& token_subject(t, key, at) == Some(id)
        }),
{
    let id = (users.len() + 1) as i64;
    lemma_lookup_push(users, (id, lower_of(email), hash), lower_of(email));
    lemma_issued_token_verifies(id, now, validity, key, at);
}

/// A stored email with a wrong password fails exactly as an email that was
/// never stored: an authorization failure, with the same status.
pub proof fn lemma_wrong_password_like_unknown_email(
    users: Seq<(i64, Seq<char>, Seq<char>)>,
    email: Seq<char>,
    password: Seq<char>,
    key: Seq<u8>,
    validity: u64,
    now: u64,
)
    requires
        credentials_error(email, password) is None,
        lookup(users, lower_of(email)) matches Some(u) && !password_matches(password, u.2),
    ensures
        login_outcome(users, email, password, key, validity, now) == Err::<Seq<char>, ErrorKind>(
            ErrorKind::Unauthorized,
        ),
        login_outcome(Seq::empty(), email, password, key, validity, now) == Err::<Seq<char>, ErrorKind>(
            ErrorKind::Unauthorized,
        ),
        status_of(ErrorKind::Unauthorized) == 401,
{
}

} // verus!
