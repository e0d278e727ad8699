//! The claims a bearer token carries, and signing and verifying tokens.
//!
//! A token is a JSON Web Token in compact form, signed with HMAC-SHA256 under
//! the process-wide signing secret. Its payload holds three claims: the
//! subject `sub`, the time of issue `iat` and the expiry time `exp`, both in
//! seconds since the Unix epoch.

use vstd::prelude::*;
use jsonwebtoken::{decode, encode, Algorithm, DecodingKey, EncodingKey, Header, Validation};
use crate::error::Rejection;

verus! {

/// The decoded payload of a token.
#[derive(Debug, Clone, PartialEq, Eq)]
pub struct Claims {
    /// The identifier of the user the token speaks for.
    pub sub: String,
    /// When the token was issued.
    pub iat: i64,
    /// The first moment at which the token is no longer valid.
    pub exp: i64,
}

/// The mathematical value of a `Claims`.
pub struct ClaimsView {
    pub sub: Seq<char>,
    pub iat: int,
    pub exp: int,
}

impl View for Claims {
    type V = ClaimsView;

    open spec fn view(&self) -> ClaimsView {
        ClaimsView { sub: self.sub@, iat: self.iat as int, exp: self.exp as int }
    }
}

/// The three claims as a verified token's payload holds them: each is absent
/// where the payload has no member of that name, or one of another type.
#[derive(Debug, Clone, PartialEq, Eq)]
pub struct Payload {
    pub sub: Option<String>,
    pub iat: Option<i64>,
    pub exp: Option<i64>,
}

impl View for Payload {
    type V = (Option<Seq<char>>, Option<i64>, Option<i64>);

    open spec fn view(&self) -> (Option<Seq<char>>, Option<i64>, Option<i64>) {
        (
            match self.sub {
                Some(s) => Some(s@),
                None => None,
            },
            self.iat,
            self.exp,
        )
    }
}

/// What `jsonwebtoken::encode` returns for the default header (HS256), a
/// payload of the three claims and an HMAC key of the bytes `secret`: the
/// token, or `None` where it fails.
pub uninterp spec fn hs256_encoded(sub: Seq<char>, iat: i64, exp: i64, secret: Seq<u8>) -> Option<
    Seq<char>,
>;

/// What `jsonwebtoken::decode` finds in `token` under an HMAC key of the bytes
/// `secret`, where only HS256 is allowed, no claim is required and the expiry
/// time is not judged: `None` where it fails, and otherwise the members `sub`
/// (a string), `iat` and `exp` (integers in the range of `i64`) of the
/// payload, each as far as it is there.
pub uninterp spec fn hs256_decoded(token: Seq<char>, secret: Seq<u8>) -> Option<
    (Option<Seq<char>>, Option<i64>, Option<i64>),
>;

/// `jsonwebtoken::errors::Error`, of which only the presence is read.
#[verifier::external_type_specification]
#[verifier::external_body]
pub struct ExTokenError(jsonwebtoken::errors::Error);

/// `jsonwebtoken::encode` with the default header, which names HS256, on a
/// JSON object of the three claims. Trusted: the result is a function of the
/// arguments, and a token that comes back decodes under the same secret to
/// the claims that went in, as the crate's documentation shows of `encode`
/// and `decode`.
#[verifier::external_body]
fn encode_hs256(sub: &str, iat: i64, exp: i64, secret: &[u8]) -> (r: Result<
    String,
    jsonwebtoken::errors::Error,
>)
    ensures
        r matches Ok(t) ==> hs256_encoded(sub@, iat, exp, secret@) == Some(t@),
        r is Err ==> hs256_encoded(sub@, iat, exp, secret@) is None,
        r matches Ok(t) ==> hs256_decoded(t@, secret@) == Some((Some(sub@), Some(iat), Some(exp))),
{
    let mut payload = serde_json::Map::new();
    payload.insert("exp".to_owned(), serde_json::Value::from(exp));
    payload.insert("iat".to_owned(), serde_json::Value::from(iat));
    payload.insert("sub".to_owned(), serde_json::Value::from(sub));
    encode(&Header::default(), &payload, &EncodingKey::from_secret(secret))
}

/// `jsonwebtoken::decode` into a JSON value, allowing HS256 alone, with the
/// expiry check switched off and no claim required, so that the call judges
/// structure, algorithm and signature and never reads the clock; as the
/// crate's defaults have it, a token that names an audience is refused. The
/// three claims are then picked out of the payload. Trusted: the result is a
/// function of the arguments, computed by the RustCrypto provider that the
/// crate is built with.
#[verifier::external_body]
fn decode_hs256(token: &str, secret: &[u8]) -> (r: Result<Payload, jsonwebtoken::errors::Error>)
    ensures
        r matches Ok(p) ==> hs256_decoded(token@, secret@) == Some(p@),
        r is Err ==> hs256_decoded(token@, secret@) is None,
{
    let mut validation = Validation::new(Algorithm::HS256);
    validation.validate_exp = false;
    validation.required_spec_claims.clear();
    let key = DecodingKey::from_secret(secret);
    let claims = decode::<serde_json::Value>(token, &key, &validation)?.claims;
    Ok(Payload {
        sub: claims.get("sub").and_then(serde_json::Value::as_str).map(String::from),
        iat: claims.get("iat").and_then(serde_json::Value::as_i64),
        exp: claims.get("exp").and_then(serde_json::Value::as_i64),
    })
}

/// The claims of a decoded payload: all three must be there, and a token that
/// did not decode, or lacks one of them, is an invalid token.
pub open spec fn claims_of(decoded: Option<(Option<Seq<char>>, Option<i64>, Option<i64>)>) -> Result<
    ClaimsView,
    Rejection,
> {
    match decoded {
        Some((Some(sub), Some(iat), Some(exp))) => Ok(
            ClaimsView { sub, iat: iat as int, exp: exp as int },
        ),
        _ => Err(Rejection::InvalidToken),
    }
}

/// The claims that `token` proves under `secret`, or `InvalidToken`.
pub open spec fn verified_claims(token: Seq<char>, secret: Seq<u8>) -> Result<
    ClaimsView,
    Rejection,
> {
    claims_of(hs256_decoded(token, secret))
}

/// The view of a verification result.
pub open spec fn claims_result_view(r: Result<Claims, Rejection>) -> Result<ClaimsView, Rejection> {
    match r {
        Ok(c) => Ok(c@),
        Err(e) => Err(e),
    }
}

/// The view of a signing result.
pub open spec fn token_view(r: Option<String>) -> Option<Seq<char>> {
    match r {
        Some(token) => Some(token@),
        None => None,
    }
}

/// The view of what decoding handed back, whatever the type of its error.
pub open spec fn decoded_view<E>(decoded: Result<Payload, E>) -> Option<
    (Option<Seq<char>>, Option<i64>, Option<i64>),
> {
    match decoded {
        Ok(p) => Some(p@),
        Err(_) => None,
    }
}

impl Claims {
    /// Mints the claims of a token issued at `issued_at` for `subject`, valid
    /// for `max_age` seconds: the expiry time is the time of issue plus the
    /// maximum age. There are no such claims where that sum does not fit 64
    /// bits.
    pub fn mint(subject: String, issued_at: i64, max_age: i64) -> (r: Option<Claims>)
        ensures
            r is Some <==> i64::MIN <= issued_at + max_age <= i64::MAX,
            r matches Some(c) ==> c@ == (ClaimsView {
                sub: subject@,
                iat: issued_at as int,
                exp: issued_at + max_age,
            }),
    {
        match issued_at.checked_add(max_age) {
            Some(expires_at) => Some(Claims { sub: subject, iat: issued_at, exp: expires_at }),
            None => None,
        }
    }
}

/// Turns what decoding a token handed back into the claims it proves: a token
/// that failed to decode, or whose payload lacks a subject, a time of issue or
/// an expiry time, is rejected as `InvalidToken`.
pub fn claims_from<E>(decoded: Result<Payload, E>) -> (r: Result<Claims, Rejection>)
    ensures
        claims_result_view(r) == claims_of(decoded_view(decoded)),
{
    match decoded {
        Ok(payload) => match (payload.sub, payload.iat, payload.exp) {
            (Some(sub), Some(iat), Some(exp)) => Ok(Claims { sub, iat, exp }),
            _ => Err(Rejection::InvalidToken),
        },
        Err(_) => Err(Rejection::InvalidToken),
    }
}

/// Signs claims into a token under `secret`. `None` where the signer fails.
pub fn sign(claims: &Claims, secret: &[u8]) -> (r: Option<String>)
    ensures
        token_view(r) == hs256_encoded(claims.sub@, claims.iat, claims.exp, secret@),
        r matches Some(t) ==> verified_claims(t@, secret@) == Ok::<ClaimsView, Rejection>(claims@),
{
    match encode_hs256(claims.sub.as_str(), claims.iat, claims.exp, secret) {
        Ok(token) => Some(token),
        Err(_) => None,
    }
}

/// Verifies the structure, algorithm and signature of `token` under `secret`
/// and returns the claims it carries. Any failure is `InvalidToken`. The
/// expiry time is not judged here.
pub fn verify_signature(token: &str, secret: &[u8]) -> (r: Result<Claims, Rejection>)
    ensures
        claims_result_view(r) == verified_claims(token@, secret@),
{
    claims_from(decode_hs256(token, secret))
}

} // verus!
