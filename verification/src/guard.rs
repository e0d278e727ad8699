//! The token guard: from the bearer token of a request to an authenticated
//! identity, or to the reason for which the request is rejected.
//!
//! A request passes four stages in order, and the first that fails decides.
//! The token is taken from its carrier (`MissingToken`), its structure,
//! algorithm and signature are verified under the signing secret
//! (`InvalidToken`), its expiry time is held against the current time
//! (`TokenExpired`), and the subject is resolved to a user record
//! (`UserNotFound`, `InternalError`). The record is looked up by the caller:
//! `TokenGuard::screen` runs the first three stages and hands back the claims
//! whose subject is to be looked up, and `resolve_identity` judges what the
//! lookup found. Nothing is retried, and no stage is skipped.

use vstd::prelude::*;
use vstd::string::*;
use crate::error::Rejection;
use crate::token::{
    claims_result_view, hs256_encoded, sign, token_view, verified_claims, verify_signature, Claims,
    ClaimsView,
};

verus! {

/// What the user-lookup collaborator reported for a subject.
#[derive(Debug, Clone, PartialEq, Eq)]
pub enum Lookup<U> {
    /// The record of the user with that identifier.
    Found(U),
    /// There is no such user.
    NotFound,
    /// The lookup could not be carried out.
    Failed,
}

/// What an answer of the collaborator means: a record, no record, or a
/// failure of the lookup itself, which is not the same as finding nothing.
pub open spec fn lookup_of<U, E>(answer: Result<Option<U>, E>) -> Lookup<U> {
    match answer {
        Ok(Some(user)) => Lookup::Found(user),
        Ok(None) => Lookup::NotFound,
        Err(_) => Lookup::Failed,
    }
}

impl<U> Lookup<U> {
    /// Reads the answer of a collaborator that returns the record, if there
    /// is one, or an error of its own.
    pub fn from_answer<E>(answer: Result<Option<U>, E>) -> (lookup: Lookup<U>)
        ensures
            lookup == lookup_of(answer),
    {
        match answer {
            Ok(Some(user)) => Lookup::Found(user),
            Ok(None) => Lookup::NotFound,
            Err(_) => Lookup::Failed,
        }
    }
}

/// What `uuid::Uuid::parse_str` reads from `text`, as a number of 128 bits:
/// `None` where it fails.
pub uninterp spec fn uuid_parsed(text: Seq<char>) -> Option<u128>;

/// `uuid::Error`, of which only the presence is read.
#[verifier::external_type_specification]
#[verifier::external_body]
pub struct ExUuidError(uuid::Error);

/// `uuid::Uuid::parse_str`, with the identifier handed out as a number of
/// 128 bits by `Uuid::as_u128`. Trusted: the result is a function of the
/// text.
#[verifier::external_body]
fn parse_uuid(text: &str) -> (r: Result<u128, uuid::Error>)
    ensures
        r matches Ok(value) ==> uuid_parsed(text@) == Some(value),
        r is Err ==> uuid_parsed(text@) is None,
{
    Ok(uuid::Uuid::parse_str(text)?.as_u128())
}

/// The key under which the user store files a subject. User identifiers are
/// UUIDs: a subject that is none names no user.
pub open spec fn key_of(subject: Seq<char>) -> Result<u128, Rejection> {
    match uuid_parsed(subject) {
        Some(value) => Ok(value),
        None => Err(Rejection::UserNotFound),
    }
}

/// The time of a clock reading, in seconds since the Unix epoch: `Ok` holds
/// the whole seconds that the clock is past the epoch, `Err` those that it is
/// short of it. A reading beyond the range of 64 bits is the end of the range.
pub open spec fn clock_time(reading: Result<u64, u64>) -> int {
    match reading {
        Ok(seconds) => if seconds <= i64::MAX {
            seconds as int
        } else {
            i64::MAX as int
        },
        Err(seconds) => if seconds <= i64::MAX {
            -(seconds as int)
        } else {
            i64::MIN as int
        },
    }
}

/// The scheme prefix of an authorization header that carries a bearer token.
pub open spec fn bearer_prefix() -> Seq<char> {
    seq!['B', 'e', 'a', 'r', 'e', 'r', ' ']
}

/// The token that an authorization header carries: what follows the prefix
/// `Bearer `, where the header starts with it.
pub open spec fn bearer_of(header: Seq<char>) -> Option<Seq<char>> {
    if header.len() >= 7 && header.subrange(0, 7) == bearer_prefix() {
        Some(header.subrange(7, header.len() as int))
    } else {
        None
    }
}

/// The token that a request carries. A well-formed authorization header comes
/// first; without one, the value of the token cookie is taken.
pub open spec fn carried_token(
    authorization: Option<Seq<char>>,
    cookie: Option<Seq<char>>,
) -> Result<Seq<char>, Rejection> {
    if authorization is Some && bearer_of(authorization->0) is Some {
        Ok(bearer_of(authorization->0)->0)
    } else {
        match cookie {
            Some(value) => Ok(value),
            None => Err(Rejection::MissingToken),
        }
    }
}

/// Claims are valid at `now` while the expiry time has not been reached.
pub open spec fn expiry_verdict(claims: ClaimsView, now: int) -> Result<(), Rejection> {
    if now < claims.exp {
        Ok(())
    } else {
        Err(Rejection::TokenExpired)
    }
}

/// The first three stages: the claims of the token that the request carries,
/// if it carries one that verifies under `secret` and has not expired at
/// `now`, and otherwise the rejection of the first stage that failed.
pub open spec fn screening(
    authorization: Option<Seq<char>>,
    cookie: Option<Seq<char>>,
    secret: Seq<u8>,
    now: int,
) -> Result<ClaimsView, Rejection> {
    match carried_token(authorization, cookie) {
        Err(reason) => Err(reason),
        Ok(token) => match verified_claims(token, secret) {
            Err(reason) => Err(reason),
            Ok(claims) => match expiry_verdict(claims, now) {
                Err(reason) => Err(reason),
                Ok(()) => Ok(claims),
            },
        },
    }
}

/// The token that is issued for `subject` at `now`: its claims expire
/// `max_age` seconds after `now`, and it is signed under `secret`. There is
/// none where the expiry time does not fit 64 bits, or the signer fails.
pub open spec fn issued(subject: Seq<char>, now: int, max_age: int, secret: Seq<u8>) -> Option<
    Seq<char>,
> {
    if i64::MIN <= now <= i64::MAX && i64::MIN <= now + max_age <= i64::MAX {
        hs256_encoded(subject, now as i64, (now + max_age) as i64, secret)
    } else {
        None
    }
}

/// The last stage: the identity that the lookup found, or why there is none.
pub open spec fn resolution<U>(lookup: Lookup<U>) -> Result<U, Rejection> {
    match lookup {
        Lookup::Found(user) => Ok(user),
        Lookup::NotFound => Err(Rejection::UserNotFound),
        Lookup::Failed => Err(Rejection::InternalError),
    }
}

/// All four stages: the outcome of a request whose screening ended in
/// `screened`, where the lookup, once it is reached, reports `lookup`.
pub open spec fn authentication<U>(
    screened: Result<ClaimsView, Rejection>,
    lookup: Lookup<U>,
) -> Result<U, Rejection> {
    match screened {
        Err(reason) => Err(reason),
        Ok(_) => resolution(lookup),
    }
}

/// The view of an optional text.
pub open spec fn text_view(text: Option<&str>) -> Option<Seq<char>> {
    match text {
        Some(s) => Some(s@),
        None => None,
    }
}

/// Reads the bearer token out of an authorization header.
pub fn bearer_token<'a>(header: &'a str) -> (r: Option<&'a str>)
    ensures
        text_view(r) == bearer_of(header@),
{
    let n: usize = header.unicode_len();
    if n < 7 {
        return None;
    }
    if header.get_char(0) == 'B' && header.get_char(1) == 'e' && header.get_char(2) == 'a'
        && header.get_char(3) == 'r' && header.get_char(4) == 'e' && header.get_char(5) == 'r'
        && header.get_char(6) == ' ' {
        assert(header@.subrange(0, 7) =~= bearer_prefix());
        Some(header.substring_char(7, n))
    } else {
        assert(forall|i: int| 0 <= i < 7 ==> header@.subrange(0, 7)[i] == header@[i]);
        None
    }
}

/// Takes the token from its carrier: from the authorization header where that
/// is a well-formed bearer header, else from the token cookie. A request with
/// neither is rejected as `MissingToken`.
pub fn extract_token<'a>(authorization: Option<&'a str>, cookie: Option<&'a str>) -> (r: Result<
    &'a str,
    Rejection,
>)
    ensures
        match r {
            Ok(token) => carried_token(text_view(authorization), text_view(cookie)) == Ok::<
                Seq<char>,
                Rejection,
            >(token@),
            Err(reason) => carried_token(text_view(authorization), text_view(cookie)) == Err::<
                Seq<char>,
                Rejection,
            >(reason),
        },
{
    let from_header = match authorization {
        Some(header) => bearer_token(header),
        None => None,
    };
    match from_header {
        Some(token) => Ok(token),
        None => match cookie {
            Some(value) => Ok(value),
            None => Err(Rejection::MissingToken),
        },
    }
}

/// Holds claims against the current time: they are rejected as `TokenExpired`
/// from the expiry time on.
pub fn check_expiry(claims: &Claims, now: i64) -> (r: Result<(), Rejection>)
    ensures
        r == expiry_verdict(claims@, now as int),
{
    if now < claims.exp {
        Ok(())
    } else {
        Err(Rejection::TokenExpired)
    }
}

/// Judges what the user lookup reported for the subject of screened claims:
/// the record found is the authenticated identity, a missing record rejects
/// the request as `UserNotFound`, and a failed lookup as `InternalError`. A
/// rejection carries no identity.
pub fn resolve_identity<U>(lookup: Lookup<U>) -> (r: Result<U, Rejection>)
    ensures
        r == resolution(lookup),
        r is Ok <==> lookup is Found,
        lookup is NotFound ==> r == Err::<U, Rejection>(Rejection::UserNotFound),
{
    match lookup {
        Lookup::Found(user) => Ok(user),
        Lookup::NotFound => Err(Rejection::UserNotFound),
        Lookup::Failed => Err(Rejection::InternalError),
    }
}

/// Turns the outcome of reading a subject as a user identifier into the key
/// to look up: a subject that did not read as one is `UserNotFound`.
pub fn key_from<E>(parsed: Result<u128, E>) -> (r: Result<u128, Rejection>)
    ensures
        match parsed {
            Ok(value) => r == Ok::<u128, Rejection>(value),
            Err(_) => r == Err::<u128, Rejection>(Rejection::UserNotFound),
        },
{
    match parsed {
        Ok(value) => Ok(value),
        Err(_) => Err(Rejection::UserNotFound),
    }
}

/// The key under which the subject of screened claims is looked up. Claims
/// whose subject is no user identifier are rejected as `UserNotFound`
/// without a lookup: no record can be filed under it.
pub fn subject_key(claims: &Claims) -> (r: Result<u128, Rejection>)
    ensures
        r == key_of(claims@.sub),
{
    key_from(parse_uuid(claims.sub.as_str()))
}

/// Reads the current time off a clock that reports its distance from the
/// Unix epoch in whole seconds, past it (`Ok`) or short of it (`Err`).
pub fn clock_reading(reading: Result<u64, u64>) -> (now: i64)
    ensures
        now == clock_time(reading),
{
    match reading {
        Ok(seconds) => if seconds <= 0x7fff_ffff_ffff_ffff {
            seconds as i64
        } else {
            i64::MAX
        },
        Err(seconds) => if seconds <= 0x7fff_ffff_ffff_ffff {
            -(seconds as i64)
        } else {
            i64::MIN
        },
    }
}

/// A token whose signature verifies is still rejected, as `TokenExpired`,
/// from its expiry time on.
pub proof fn lemma_expired_token_is_rejected(
    authorization: Option<Seq<char>>,
    cookie: Option<Seq<char>>,
    secret: Seq<u8>,
    now: int,
    token: Seq<char>,
    claims: ClaimsView,
)
    requires
        carried_token(authorization, cookie) == Ok::<Seq<char>, Rejection>(token),
        verified_claims(token, secret) == Ok::<ClaimsView, Rejection>(claims),
        claims.exp <= now,
    ensures
        screening(authorization, cookie, secret, now) == Err::<ClaimsView, Rejection>(
            Rejection::TokenExpired,
        ),
{
}

/// A token that does not verify under the guard's secret is rejected as
/// `InvalidToken`, at any time.
pub proof fn lemma_unverified_token_is_invalid(
    authorization: Option<Seq<char>>,
    cookie: Option<Seq<char>>,
    secret: Seq<u8>,
    now: int,
    token: Seq<char>,
)
    requires
        carried_token(authorization, cookie) == Ok::<Seq<char>, Rejection>(token),
        verified_claims(token, secret) is Err,
    ensures
        screening(authorization, cookie, secret, now) == Err::<ClaimsView, Rejection>(
            Rejection::InvalidToken,
        ),
{
}

/// A request whose token is valid and unexpired, but whose subject has no
/// user record, is rejected as `UserNotFound`: the outcome holds no identity.
pub proof fn lemma_unknown_subject_is_rejected<U>(claims: ClaimsView)
    ensures
        authentication::<U>(Ok(claims), Lookup::NotFound) == Err::<U, Rejection>(
            Rejection::UserNotFound,
        ),
        authentication::<U>(Ok(claims), Lookup::NotFound) is Err,
{
}

/// The guard of one process: the signing secret and the maximum age of the
/// tokens it issues, both fixed when it is made.
pub struct TokenGuard {
    secret: Vec<u8>,
    max_age: i64,
}

impl TokenGuard {
    /// The signing secret.
    pub closed spec fn secret(&self) -> Seq<u8> {
        self.secret@
    }

    /// The number of seconds for which an issued token is valid.
    pub closed spec fn max_age(&self) -> int {
        self.max_age as int
    }

    /// A guard that signs and verifies under `secret` and issues tokens that
    /// are valid for `max_age` seconds.
    pub fn new(secret: Vec<u8>, max_age: i64) -> (guard: TokenGuard)
        ensures
            guard.secret() == secret@,
            guard.max_age() == max_age,
    {
        TokenGuard { secret, max_age }
    }

    /// Issues a token for `subject` at `now`: its claims are minted with the
    /// expiry time `now` plus the maximum age, and signed under the secret.
    /// `None` where the expiry time does not fit 64 bits or the signer fails.
    ///
    /// A token that was issued passes this guard's screening, as a bearer
    /// header, at every time before its expiry, and is rejected as
    /// `TokenExpired` from then on.
    pub fn issue(&self, subject: String, now: i64) -> (r: Option<String>)
        ensures
            token_view(r) == issued(subject@, now as int, self.max_age(), self.secret()),
            r matches Some(token) ==> forall|at: int| #[trigger]
                screening(Some(bearer_prefix() + token@), None, self.secret(), at) == (if at < now
                    + self.max_age() {
                    Ok::<ClaimsView, Rejection>(
                        ClaimsView { sub: subject@, iat: now as int, exp: now + self.max_age() },
                    )
                } else {
                    Err::<ClaimsView, Rejection>(Rejection::TokenExpired)
                }),
    {
        match Claims::mint(subject, now, self.max_age) {
            None => None,
            Some(claims) => {
                let signed = sign(&claims, self.secret.as_slice());
                proof {
                    if signed is Some {
                        let token = signed->0@;
                        let header = bearer_prefix() + token;
                        assert(header.subrange(0, 7) =~= bearer_prefix());
                        assert(header.subrange(7, header.len() as int) =~= token);
                    }
                }
                signed
            },
        }
    }

    /// Runs the first three stages on a request at time `now`, given the
    /// value of its authorization header and of its token cookie, each if
    /// present. On success the caller looks up the subject of the claims and
    /// hands the outcome to `resolve_identity`.
    pub fn screen(&self, authorization: Option<&str>, cookie: Option<&str>, now: i64) -> (r: Result<
        Claims,
        Rejection,
    >)
        ensures
            claims_result_view(r) == screening(
                text_view(authorization),
                text_view(cookie),
                self.secret(),
                now as int,
            ),
    {
        let token = match extract_token(authorization, cookie) {
            Ok(token) => token,
            Err(reason) => { return Err(reason); },
        };
        let claims = match verify_signature(token, self.secret.as_slice()) {
            Ok(claims) => claims,
            Err(reason) => { return Err(reason); },
        };
        match check_expiry(&claims, now) {
            Ok(()) => Ok(claims),
            Err(reason) => Err(reason),
        }
    }

    /// Runs all four stages on a request at time `now`, with `lookup` as the
    /// user-lookup collaborator: it is handed the subject of the screened
    /// claims, once, and only where the first three stages passed.
    pub fn authenticate<U, F: FnOnce(String) -> Lookup<U>>(
        &self,
        authorization: Option<&str>,
        cookie: Option<&str>,
        now: i64,
        lookup: F,
    ) -> (r: Result<U, Rejection>)
        requires
            forall|subject: String| call_requires(lookup, (subject,)),
        ensures
            match screening(text_view(authorization), text_view(cookie), self.secret(), now as int) {
                Err(reason) => r == Err::<U, Rejection>(reason),
                Ok(claims) => exists|subject: String, found: Lookup<U>|
                    subject@ == claims.sub && call_ensures(lookup, (subject,), found) && r
                        == authentication(Ok(claims), found),
            },
    {
        match self.screen(authorization, cookie, now) {
            Err(reason) => Err(reason),
            Ok(claims) => resolve_identity(lookup(claims.sub)),
        }
    }
}

} // verus!
