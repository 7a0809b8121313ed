use vstd::prelude::*;

verus! {

#[verifier::external_type_specification]
#[verifier::external_body]
pub struct ExBcryptError(bcrypt::BcryptError);

/// Whether `hash` is a bcrypt credential that `password` matches.
pub uninterp spec fn password_matches(password: Seq<char>, hash: Seq<char>) -> bool;

/// The lowercase form of `s`.
pub uninterp spec fn lower_of(s: Seq<char>) -> Seq<char>;

/// Relies on `bcrypt::verify`: it returns `Ok(true)` exactly where the hash is
/// a well-formed bcrypt credential that the password matches, which depends
/// on the two texts alone.
#[verifier::external_body]
pub(crate) fn verify_password(password: &str, hash: &str) -> (r: Result<bool, bcrypt::BcryptError>)
    ensures
        (r matches Ok(b) && b) == password_matches(password@, hash@),
{
    bcrypt::verify(password, hash)
}

/// The decimal digit for `d` (meaningful for `d < 10`).
pub open spec fn decimal_digit(d: u32) -> char {
    seq!['0', '1', '2', '3', '4', '5', '6', '7', '8', '9'][d as int]
}

/// How a bcrypt credential of cost `cost` begins: version, two-digit cost and
/// separator.
pub open spec fn bcrypt_header(cost: u32) -> Seq<char> {
    "$2b$"@ + seq![decimal_digit(cost / 10), decimal_digit(cost % 10), '$']
}

/// The costs that bcrypt accepts.
pub open spec fn cost_allowed(cost: u32) -> bool {
    4 <= cost <= 31
}

/// Relies on `bcrypt::hash`: it refuses a cost outside 4 to 31; the salt is
/// random, but a hash it returns is written as `$2b$`, the two-digit cost,
/// `$`, 22 characters of salt and 31 of digest (60 in all), and is one that
/// `bcrypt::verify` accepts for the same password.
#[verifier::external_body]
pub(crate) fn hash_password(password: &str, cost: u32) -> (r: Result<String, bcrypt::BcryptError>)
    ensures
        r matches Ok(h) ==> password_matches(password@, h@),
        r matches Ok(h) ==> h@.len() == 60 && h@.take(7) == bcrypt_header(cost),
        !cost_allowed(cost) ==> r is Err,
{
    bcrypt::hash(password, cost)
}

/// Relies on `str::to_lowercase`: the result depends on the characters alone.
#[verifier::external_body]
pub(crate) fn lowercase(s: &str) -> (r: String)
    ensures
        r@ == lower_of(s@),
{
    s.to_lowercase()
}

/// The form of an email address under which it is stored and looked up.
pub fn normalize_email(email: &str) -> (r: String)
    ensures
        r@ == lower_of(email@),
{
    lowercase(email)
}

} // verus!
