use vstd::prelude::*;

use crate::error::{status_of, Error, ErrorKind};
use crate::token::{token_subject, validate_token, TokenSettings};

verus! {

/// Shown when a request carries no authorization header.
pub const MISSING_HEADER: &'static str = "missing header";

/// The scheme word that may precede a token in an authorization header.
pub const BEARER_PREFIX: &'static str = "Bearer ";

/// The token that an authorization header carries: the text after the
/// scheme word where there is one, else the whole header.
pub open spec fn bearer_token(header: Seq<char>) -> Seq<char> {
    if header.len() >= BEARER_PREFIX@.len() && header.take(BEARER_PREFIX@.len() as int)
        == BEARER_PREFIX@ {
        header.skip(BEARER_PREFIX@.len() as int)
    } else {
        header
    }
}

/// Takes the token out of an authorization header.
pub fn bearer_part(header: &str) -> (r: &str)
    ensures
        r@ == bearer_token(header@),
{
    let n = header.unicode_len();
    let p = BEARER_PREFIX.unicode_len();
    if n < p {
        return header;
    }
    let mut i: usize = 0;
    while i < p
        invariant
            0 <= i <= p,
            p == BEARER_PREFIX@.len(),
            n == header@.len(),
            p <= n,
            header@.take(i as int) == BEARER_PREFIX@.take(i as int),
        decreases p - i,
    {
        if header.get_char(i) != BEARER_PREFIX.get_char(i) {
            assert(header@.take(p as int)[i as int] != BEARER_PREFIX@[i as int]);
            return header;
        }
        assert(header@.take(i + 1) =~= header@.take(i as int).push(header@[i as int]));
        assert(BEARER_PREFIX@.take(i + 1) =~= BEARER_PREFIX@.take(i as int).push(BEARER_PREFIX@[i as int]));
        i = i + 1;
    }
    assert(BEARER_PREFIX@.take(p as int) =~= BEARER_PREFIX@);
    header.substring_char(p, n)
}

/// Decides whether a request may pass: it needs an authorization header,
/// and the token in it must verify at `now`. Returns the identity the request
/// acts for.
pub fn authorize(header: Option<&str>, now: u64, settings: &TokenSettings) -> (r: Result<i64, Error>)
    ensures
        header is None ==> (r matches Err(e) && e.kind == ErrorKind::InvalidInput && e.http_code
            == 400 && e.message@ == MISSING_HEADER@),
        header matches Some(h) ==> match token_subject(bearer_token(h@), settings.secret@, now) {
            Some(id) => r == Ok::<i64, Error>(id),
            None => r matches Err(e) && e.kind == ErrorKind::Unauthorized && e.http_code == 401,
        },
        r matches Err(e) ==> e.http_code == status_of(e.kind),
{
    match header {
        None => Err(Error::new(ErrorKind::InvalidInput, MISSING_HEADER)),
        Some(h) => validate_token(bearer_part(h), now, settings),
    }
}

} // verus!
