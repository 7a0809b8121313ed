use vstd::prelude::*;

verus! {

/// Whether `c` belongs to the URL-safe base64 alphabet.
pub open spec fn is_base64url_char(c: char) -> bool {
    ('A' <= c <= 'Z') || ('a' <= c <= 'z') || ('0' <= c <= '9') || c == '-' || c == '_'
}

/// The base64url HMAC-SHA256 signature of `message` under `key`.
pub uninterp spec fn hs256_of(message: Seq<char>, key: Seq<u8>) -> Seq<char>;

/// Relies on `jsonwebtoken::crypto::sign` with `Algorithm::HS256`: for an
/// HMAC algorithm it always returns `Ok` (here `Some`), holding the base64url
/// HMAC-SHA256 of the message's bytes under the key, which depends on those
/// two alone: 32 bytes in URL-safe base64 without padding, 43 characters.
#[verifier::external_body]
pub(crate) fn sign_hs256(message: &str, key: &[u8]) -> (r: Option<String>)
    ensures
        r is Some,
        r->Some_0@ == hs256_of(message@, key@),
        r->Some_0@.len() == 43,
        forall|i: int| 0 <= i < r->Some_0@.len() ==> is_base64url_char(#[trigger] r->Some_0@[i]),
{
    jsonwebtoken::crypto::sign(
        message.as_bytes(),
        &jsonwebtoken::EncodingKey::from_secret(key),
        jsonwebtoken::Algorithm::HS256,
    ).ok()
}

/// Relies on `jsonwebtoken::crypto::verify` with `Algorithm::HS256`: for an
/// HMAC algorithm it signs the message again with the key and returns `Ok`
/// (here `Some`) of whether that signature equals the given one.
#[verifier::external_body]
pub(crate) fn check_hs256(signature: &str, message: &str, key: &[u8]) -> (r: Option<bool>)
    ensures
        r is Some,
        r->Some_0 == (signature@ == hs256_of(message@, key@)),
{
    jsonwebtoken::crypto::verify(
        signature,
        message.as_bytes(),
        &jsonwebtoken::DecodingKey::from_secret(key),
        jsonwebtoken::Algorithm::HS256,
    ).ok()
}

} // verus!
