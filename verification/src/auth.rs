use vstd::prelude::*;
use vstd::string::StrSliceExecFns;
use crate::errors::ApiError;

verus! {

/// The header value opens with the literal prefix `Bearer ` (seven characters).
pub open spec fn has_bearer_prefix(s: Seq<char>) -> bool {
    &&& s.len() >= 7
    &&& s[0] == 'B'
    &&& s[1] == 'e'
    &&& s[2] == 'a'
    &&& s[3] == 'r'
    &&& s[4] == 'e'
    &&& s[5] == 'r'
    &&& s[6] == ' '
}

/// The token carried by a header value: everything after the `Bearer ` prefix.
pub open spec fn bearer_token_of(s: Seq<char>) -> Seq<char>
    recommends
        has_bearer_prefix(s),
{
    s.subrange(7, s.len() as int)
}

/// An `Authorization` header is well-formed when it is present and carries the
/// `Bearer ` prefix; everything else is rejected before the token is looked at.
pub open spec fn header_well_formed(header: Option<&str>) -> bool {
    match header {
        Some(h) => has_bearer_prefix(h@),
        None => false,
    }
}

/// The token presented by a well-formed header (empty for the others).
pub open spec fn header_token(header: Option<&str>) -> Seq<char> {
    match header {
        Some(h) => bearer_token_of(h@),
        None => Seq::empty(),
    }
}

/// Whether `token` is a structurally valid signed token whose HMAC-SHA256
/// signature verifies under `secret`. This depends on the token and the secret
/// alone; only the outside cryptography can compute it, so it is left
/// uninterpreted here.
pub uninterp spec fn token_signature_ok(token: Seq<char>, secret: Seq<u8>) -> bool;

/// Splits the token off a header value, accepting exactly the values that open
/// with `Bearer `.
pub fn extract_bearer<'a>(header: &'a str) -> (r: Option<&'a str>)
    ensures
        match r {
            Some(t) => has_bearer_prefix(header@) && t@ == bearer_token_of(header@),
            None => !has_bearer_prefix(header@),
        },
{
    let n = header.unicode_len();
    if n < 7 {
        return None;
    }
    if header.get_char(0) != 'B' || header.get_char(1) != 'e' || header.get_char(2) != 'a'
        || header.get_char(3) != 'r' || header.get_char(4) != 'e' || header.get_char(5) != 'r'
        || header.get_char(6) != ' ' {
        return None;
    }
    Some(header.substring_char(7, n))
}

/// Relies on `jsonwebtoken::decode` under `Validation::new(Algorithm::HS256)`:
/// it returns `Ok` only when the token parses as a signed token whose
/// HMAC-SHA256 signature verifies under `secret`. It further requires an `exp`
/// claim that has not passed at the time of the call, so a `true` result is
/// not a function of the arguments alone and is left unconstrained.
#[verifier::external_body]
fn decode_token(token: &str, secret: &[u8]) -> (valid: bool)
    ensures
        valid ==> token_signature_ok(token@, secret@),
{
    let key = jsonwebtoken::DecodingKey::from_secret(secret);
    let validation = jsonwebtoken::Validation::new(jsonwebtoken::Algorithm::HS256);
    jsonwebtoken::decode::<serde_json::Value>(token, &key, &validation).is_ok()
}

/// The authorization gate: from the raw `Authorization` header value (or its
/// absence) and the shared secret to a pass-through decision. It fails closed:
/// a missing header, a missing `Bearer ` prefix, or a token the verifier
/// rejects (bad signature, malformed encoding, expired) all collapse to
/// `Unauthorized`, and a pass is only possible for a well-formed header whose
/// token's signature verifies under the secret.
pub fn authorize(header: Option<&str>, secret: &[u8]) -> (decision: Result<(), ApiError>)
    ensures
        !header_well_formed(header) ==> decision == Err::<(), ApiError>(ApiError::Unauthorized),
        !token_signature_ok(header_token(header), secret@) ==> decision == Err::<(), ApiError>(
            ApiError::Unauthorized,
        ),
        decision is Ok ==> header_well_formed(header) && token_signature_ok(
            header_token(header),
            secret@,
        ),
        decision is Err ==> decision == Err::<(), ApiError>(ApiError::Unauthorized),
{
    match header {
        None => Err(ApiError::Unauthorized),
        Some(h) => {
            match extract_bearer(h) {
                None => Err(ApiError::Unauthorized),
                Some(token) => {
                    if decode_token(token, secret) {
                        Ok(())
                    } else {
                        Err(ApiError::Unauthorized)
                    }
                },
            }
        },
    }
}

} // verus!
