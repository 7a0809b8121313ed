use vstd::prelude::*;
use vstd::string::*;

use crate::error::{status_of, Error, ErrorKind, INTERNAL_MESSAGE};
use crate::signing::{check_hs256, hs256_of, is_base64url_char, sign_hs256};
use crate::hex::{hex_text, hex_value, lemma_hex_round_trip, push_hex, read_hex};

verus! {

/// The identity a token speaks for.
#[derive(Clone, Copy, Debug, PartialEq, Eq, Structural)]
pub struct ClaimData {
    pub id: i64,
}

/// What a token carries: its subject and its lifetime, in whole seconds since
/// the Unix epoch.
#[derive(Clone, Copy, Debug, PartialEq, Eq, Structural)]
pub struct Claims {
    pub exp: u64,
    pub created_at: u64,
    pub data: ClaimData,
}

/// The key tokens are signed with and how long a token stays valid; a token
/// is issued only under a window of at least one second.
pub struct TokenSettings {
    pub secret: Vec<u8>,
    pub validity_secs: u64,
}

/// The header segment of every token.
pub const TOKEN_HEADER: &'static str = "HS256";

/// The 64 bits of a subject, read as an unsigned number.
pub open spec fn id_bits(id: i64) -> u64 {
    #[verifier::truncate]
    (id as u64)
}

/// The subject whose bits are `v`.
pub open spec fn id_of_bits(v: u64) -> i64 {
    #[verifier::truncate]
    (v as i64)
}

proof fn lemma_id_bits_round_trip(id: i64)
    ensures
        id_of_bits(id_bits(id)) == id,
{
    assert((#[verifier::truncate] ((#[verifier::truncate] (id as u64)) as i64)) == id) by (bit_vector);
}

/// The claims segment: subject, issue time and expiry, sixteen hexadecimal
/// digits each.
pub open spec fn claims_text(c: Claims) -> Seq<char> {
    hex_text(id_bits(c.data.id)) + hex_text(c.created_at) + hex_text(c.exp)
}

/// The signed part of a token: header, a dot, claims.
pub open spec fn message_text(c: Claims) -> Seq<char> {
    TOKEN_HEADER@ + seq!['.'] + claims_text(c)
}

/// The token for `c` under `key`: header, claims and signature, joined by dots.
pub open spec fn token_text(c: Claims, key: Seq<u8>) -> Seq<char> {
    message_text(c) + seq!['.'] + hs256_of(message_text(c), key)
}

/// Where the claims segment of a token ends.
pub open spec fn message_len() -> int {
    54
}

/// The claims that a token's text holds, if it has the shape of a token.
pub open spec fn token_claims(t: Seq<char>) -> Option<Claims> {
    if t.len() > message_len() && t.take(5) == TOKEN_HEADER@ && t[5] == '.' && t[54] == '.' {
        match (
            hex_value(t.subrange(6, 22)),
            hex_value(t.subrange(22, 38)),
            hex_value(t.subrange(38, 54)),
        ) {
            (Some(sub), Some(iat), Some(exp)) => Some(
                Claims { exp, created_at: iat, data: ClaimData { id: id_of_bits(sub) } },
            ),
            _ => None,
        }
    } else {
        None
    }
}

/// Whether the last segment of `t` is the signature of the rest under `key`.
pub open spec fn signature_valid(t: Seq<char>, key: Seq<u8>) -> bool {
    t.skip(message_len() + 1) == hs256_of(t.take(message_len()), key)
}

/// The subject a token speaks for at time `now`: it must be well formed,
/// signed with `key` and not past its expiry.
pub open spec fn token_subject(t: Seq<char>, key: Seq<u8>, now: u64) -> Option<i64> {
    match token_claims(t) {
        Some(c) => if signature_valid(t, key) && now <= c.exp {
            Some(c.data.id)
        } else {
            None
        },
        None => None,
    }
}

/// Shown for a token that is past its expiry.
pub const EXPIRED_MESSAGE: &'static str = "token expired";

/// Shown for a token that is malformed or not signed with the key.
pub const INVALID_MESSAGE: &'static str = "invalid token";

/// Why a token is refused at `now`: its expiry has passed though it is
/// authentic, or else it is not a token signed with `key`.
pub open spec fn rejection_message(t: Seq<char>, key: Seq<u8>, now: u64) -> Seq<char> {
    match token_claims(t) {
        Some(c) => if signature_valid(t, key) && now > c.exp {
            EXPIRED_MESSAGE@
        } else {
            INVALID_MESSAGE@
        },
        None => INVALID_MESSAGE@,
    }
}

/// The claims of a token issued at `now` for `id`, valid for `validity` seconds.
pub open spec fn claims_for(id: i64, now: u64, validity: u64) -> Claims {
    Claims { exp: (now + validity) as u64, created_at: now, data: ClaimData { id } }
}

impl Claims {
    pub fn new(id: i64, created_at: u64, exp: u64) -> (r: Claims)
        ensures
            r == (Claims { exp, created_at, data: ClaimData { id } }),
    {
        Claims { exp, created_at, data: ClaimData { id } }
    }
}

/// The text that a token signs for `c`.
pub fn signing_message(c: &Claims) -> (r: String)
    ensures
        r@ == message_text(*c),
{
    let mut out = String::from_str(TOKEN_HEADER);
    out.append(".");
    proof {
        reveal_strlit(".");
    }
    push_hex(&mut out, c.data.id as u64);
    push_hex(&mut out, c.created_at);
    push_hex(&mut out, c.exp);
    assert(out@ =~= message_text(*c));
    out
}

/// Signs `c` with `key` and frames the token.
pub fn encode_claims(c: &Claims, key: &[u8]) -> (r: String)
    ensures
        r@ == token_text(*c, key@),
        r@.len() == 98,
        forall|i: int| message_len() < i < 98 ==> is_base64url_char(#[trigger] r@[i]),
{
    let message = signing_message(c);
    let signature = match sign_hs256(message.as_str(), key) {
        Some(s) => s,
        None => String::new(),
    };
    let mut out = message;
    out.append(".");
    out.append(signature.as_str());
    proof {
        reveal_strlit(".");
        reveal_strlit("HS256");
    }
    assert(out@ =~= token_text(*c, key@));
    assert(forall|i: int| message_len() < i < 98 ==> out@[i] == signature@[i - 55]);
    out
}

/// Reads the claims of a token's text, checking only its shape.
pub fn parse_claims(t: &str) -> (r: Option<Claims>)
    ensures
        r == token_claims(t@),
{
    let n = t.unicode_len();
    if n <= 54 {
        return None;
    }
    proof {
        reveal_strlit("HS256");
    }
    let mut i: usize = 0;
    while i < 5
        invariant
            0 <= i <= 5,
            n == t@.len(),
            n > 54,
            TOKEN_HEADER@.len() == 5,
            t@.take(i as int) == TOKEN_HEADER@.take(i as int),
        decreases 5 - i,
    {
        if t.get_char(i) != TOKEN_HEADER.get_char(i) {
            assert(t@.take(5)[i as int] != TOKEN_HEADER@[i as int]);
            return None;
        }
        assert(t@.take(i + 1) =~= t@.take(i as int).push(t@[i as int]));
        assert(TOKEN_HEADER@.take(i + 1) =~= TOKEN_HEADER@.take(i as int).push(TOKEN_HEADER@[i as int]));
        i = i + 1;
    }
    assert(TOKEN_HEADER@.take(5) =~= TOKEN_HEADER@);
    if t.get_char(5) != '.' || t.get_char(54) != '.' {
        return None;
    }
    let sub = read_hex(t, 6);
    let iat = read_hex(t, 22);
    let exp = read_hex(t, 38);
    match (sub, iat, exp) {
        (Some(sub), Some(iat), Some(exp)) => Some(Claims::new(sub as i64, iat, exp)),
        _ => None,
    }
}

/// Issues a token for `id` at time `now`: it expires `validity_secs` later.
/// Fails with a clock error where that expiry does not fit in the clock's range.
pub fn create_token(id: i64, now: u64, settings: &TokenSettings) -> (r: Result<String, Error>)
    requires
        settings.validity_secs > 0,
    ensures
        now + settings.validity_secs <= u64::MAX ==> (r matches Ok(t) && t@ == token_text(
            claims_for(id, now, settings.validity_secs),
            settings.secret@,
        )),
        now + settings.validity_secs > u64::MAX ==> (r matches Err(e) && e.kind
            == ErrorKind::SystemTime && e.message@ == INTERNAL_MESSAGE@),
        r matches Err(e) ==> e.http_code == status_of(e.kind),
        now + settings.validity_secs <= u64::MAX ==> claims_for(id, now, settings.validity_secs).exp
            > claims_for(id, now, settings.validity_secs).created_at,
        r matches Ok(t) ==> t@.len() == 98 && forall|i: int|
            message_len() < i < 98 ==> is_base64url_char(#[trigger] t@[i]),
{
    match now.checked_add(settings.validity_secs) {
        None => Err(Error::new(ErrorKind::SystemTime, "clock out of range")),
        Some(exp) => {
            let c = Claims::new(id, now, exp);
            Ok(encode_claims(&c, settings.secret.as_slice()))
        },
    }
}

/// Checks a token at time `now` and returns the subject it speaks for.
/// Every rejection is an authorization failure.
pub fn validate_token(token: &str, now: u64, settings: &TokenSettings) -> (r: Result<i64, Error>)
    ensures
        match token_subject(token@, settings.secret@, now) {
            Some(id) => r == Ok::<i64, Error>(id),
            None => r matches Err(e) && e.kind == ErrorKind::Unauthorized && e.http_code == 401
                && e.message@ == rejection_message(token@, settings.secret@, now),
        },
        r matches Err(e) ==> e.http_code == status_of(e.kind),
{
    let c = match parse_claims(token) {
        Some(c) => c,
        None => {
            return Err(Error::new(ErrorKind::Unauthorized, INVALID_MESSAGE));
        },
    };
    let n = token.unicode_len();
    let message = token.substring_char(0, 54);
    let signature = token.substring_char(55, n);
    let signed = match check_hs256(signature, message, settings.secret.as_slice()) {
        Some(b) => b,
        None => false,
    };
    if !signed {
        return Err(Error::new(ErrorKind::Unauthorized, INVALID_MESSAGE));
    }
    if now > c.exp {
        return Err(Error::new(ErrorKind::Unauthorized, EXPIRED_MESSAGE));
    }
    Ok(c.data.id)
}

proof fn lemma_token_parts(c: Claims, sig: Seq<char>)
    ensures
        ({
            let t = message_text(c) + seq!['.'] + sig;
            &&& token_claims(t) == Some(c)
            &&& t.take(message_len()) == message_text(c)
            &&& t.skip(message_len() + 1) == sig
        }),
{
    reveal_strlit("HS256");
    let t = message_text(c) + seq!['.'] + sig;
    assert(t.take(5) =~= TOKEN_HEADER@);
    assert(t.subrange(6, 22) =~= hex_text(id_bits(c.data.id)));
    assert(t.subrange(22, 38) =~= hex_text(c.created_at));
    assert(t.subrange(38, 54) =~= hex_text(c.exp));
    lemma_hex_round_trip(id_bits(c.data.id));
    lemma_id_bits_round_trip(c.data.id);
    lemma_hex_round_trip(c.created_at);
    lemma_hex_round_trip(c.exp);
    assert(t.take(message_len()) =~= message_text(c));
    assert(t.skip(message_len() + 1) =~= sig);
}

/// A token issued at `now` for `id` is accepted at any time up to its expiry,
/// and names `id` exactly.
pub proof fn lemma_issued_token_verifies(id: i64, now: u64, validity: u64, key: Seq<u8>, at: u64)
    requires
        now + validity <= u64::MAX,
        at <= now + validity,
    ensures
        token_subject(token_text(claims_for(id, now, validity), key), key, at) == Some(id),
{
    let c = claims_for(id, now, validity);
    lemma_token_parts(c, hs256_of(message_text(c), key));
}

/// A token past its expiry is rejected, whatever else it holds.
pub proof fn lemma_expired_token_rejected(t: Seq<char>, key: Seq<u8>, now: u64)
    requires
        token_claims(t) matches Some(c) && now > c.exp,
    ensures
        token_subject(t, key, now) is None,
{
}

/// Claims followed by any signature but their own under `key` are rejected,
/// whatever the claims hold.
pub proof fn lemma_forged_signature_rejected(c: Claims, sig: Seq<char>, key: Seq<u8>, now: u64)
    requires
        sig != hs256_of(message_text(c), key),
    ensures
        token_subject(message_text(c) + seq!['.'] + sig, key, now) is None,
{
    lemma_token_parts(c, sig);
}

} // verus!
