//! One-way hashing of passwords and comparison against a stored credential.
//!
//! A credential is a PHC string: algorithm tag, parameters, salt and digest in
//! one self-describing text. Hashing draws a fresh random salt for every call,
//! so two credentials for one password differ; comparing re-derives the digest
//! with the salt and parameters the stored credential carries.

use vstd::prelude::*;
use vstd::string::*;
use argon2::password_hash::rand_core::{OsRng, RngCore};
use argon2::password_hash::{PasswordHash, PasswordHasher, PasswordVerifier, Salt, SaltString};
use argon2::Argon2;
use crate::decimal::{beyond, exceeds};
use crate::error::CredentialError;

verus! {

/// The largest number of bytes a plaintext password may have.
pub const MAX_PASSWORD_LENGTH: usize = 64;

/// The largest degree of parallelism that Argon2 defines: 2^24 - 1.
pub const MAX_PARALLELISM: u32 = 0xFF_FFFF;

/// The name of the degree of parallelism among the parameters of a
/// credential: `p`.
pub const PARALLELISM: u8 = 112;

/// What `argon2::password_hash::PasswordHash::new` makes of `encoded`: `None`
/// where it does not parse as a PHC string, and otherwise its parameters in
/// the order of the text, each as the bytes of its name and of its value.
pub uninterp spec fn phc_params(encoded: Seq<char>) -> Option<Seq<(Seq<u8>, Seq<u8>)>>;

/// Whether `Argon2::default().verify_password` accepts `password` for the
/// parsed form of the PHC string `encoded`. Meaningful only where
/// `phc_params(encoded)` is there.
pub uninterp spec fn argon2_accepts(password: Seq<u8>, encoded: Seq<char>) -> bool;

/// The PHC string of what `Argon2::default().hash_password` derives from
/// `password` and the salt that `Salt::from_b64` reads from `salt`: `None`
/// where either of the two fails.
pub uninterp spec fn argon2_derived(password: Seq<u8>, salt: Seq<char>) -> Option<Seq<char>>;

/// `argon2::password_hash::Error`, of which only the presence is read.
#[verifier::external_type_specification]
#[verifier::external_body]
pub struct ExPasswordHashError(argon2::password_hash::Error);

/// `OsRng.try_fill_bytes` on a buffer of the recommended salt length, then
/// `SaltString::encode_b64` on what was drawn: a new salt in its text form, or
/// `None` where the operating system's random generator, or the encoding,
/// reports an error. Nothing is claimed of the outcome.
#[verifier::external_body]
fn fresh_salt() -> Option<String> {
    let mut bytes = [0u8; Salt::RECOMMENDED_LENGTH];
    OsRng.try_fill_bytes(&mut bytes).ok()?;
    Some(SaltString::encode_b64(&bytes).ok()?.as_str().to_owned())
}

/// `Salt::from_b64` on `salt`, then `Argon2::default().hash_password`, with
/// the result written out as a PHC string. Trusted: the result is a function
/// of password and salt; a credential that comes back parses as a PHC string
/// that names the default parallelism of argon2, which is 1, and
/// `verify_password` accepts the same password for it, as the round trip in
/// argon2's documentation shows.
#[verifier::external_body]
fn derive_credential(password: &[u8], salt: &str) -> (r: Result<
    String,
    argon2::password_hash::Error,
>)
    ensures
        r matches Ok(h) ==> argon2_derived(password@, salt@) == Some(h@),
        r is Err ==> argon2_derived(password@, salt@) is None,
        r matches Ok(h) ==> verifiable(h@) && argon2_accepts(password@, h@),
{
    let salt = Salt::from_b64(salt)?;
    let derived = Argon2::default().hash_password(password, salt)?;
    Ok(derived.to_string())
}

/// `PasswordHash::new` on `encoded`, with the parameters of what it parsed
/// handed out pair by pair. Trusted: the call fails exactly when the text
/// does not parse, and the pairs are those of the text, in its order.
#[verifier::external_body]
fn read_params(encoded: &str) -> (r: Result<Vec<(Vec<u8>, Vec<u8>)>, argon2::password_hash::Error>)
    ensures
        r matches Ok(pairs) ==> phc_params(encoded@) == Some(params_view(pairs@)),
        r is Err ==> phc_params(encoded@) is None,
{
    let parsed = PasswordHash::new(encoded)?;
    let mut pairs = Vec::new();
    for (name, value) in parsed.params.iter() {
        pairs.push((name.as_str().as_bytes().to_vec(), value.as_str().as_bytes().to_vec()));
    }
    Ok(pairs)
}

/// `PasswordHash::new` on `encoded`, then `Argon2::default().verify_password`
/// on what it parsed. The parallelism that the credential states must not be
/// beyond the range of Argon2: the verifier multiplies it in 32 bits before
/// it tests that range. Trusted: the call fails exactly when the text does
/// not parse, and otherwise tells whether the verifier accepted the password.
/// The verifier allocates the memory and runs the passes that the credential
/// names.
#[verifier::external_body]
fn check_credential(password: &[u8], encoded: &str) -> (r: Result<
    bool,
    argon2::password_hash::Error,
>)
    requires
        phc_params(encoded@) matches Some(pairs) ==> !parallelism_beyond_range(pairs),
    ensures
        r is Ok <==> phc_params(encoded@) is Some,
        r matches Ok(accepted) ==> accepted == argon2_accepts(password@, encoded@),
{
    let parsed = PasswordHash::new(encoded)?;
    Ok(Argon2::default().verify_password(password, &parsed).is_ok())
}

/// The mathematical value of the parameters of a credential.
pub open spec fn params_view(pairs: Seq<(Vec<u8>, Vec<u8>)>) -> Seq<(Seq<u8>, Seq<u8>)> {
    Seq::new(pairs.len(), |i: int| (pairs[i].0@, pairs[i].1@))
}

/// The parallelism that the parameters state: the value of the last of them
/// that is named `p`, which is the one that Argon2 goes by.
pub open spec fn stated_parallelism(pairs: Seq<(Seq<u8>, Seq<u8>)>) -> Option<Seq<u8>>
    decreases pairs.len(),
{
    if pairs.len() == 0 {
        None
    } else if pairs.last().0 == seq![PARALLELISM] {
        Some(pairs.last().1)
    } else {
        stated_parallelism(pairs.drop_last())
    }
}

/// Whether the parameters state a parallelism that is a decimal number above
/// `MAX_PARALLELISM`. Argon2 accepts no password under such a credential.
pub open spec fn parallelism_beyond_range(pairs: Seq<(Seq<u8>, Seq<u8>)>) -> bool {
    match stated_parallelism(pairs) {
        Some(value) => beyond(value, MAX_PARALLELISM),
        None => false,
    }
}

/// Whether `encoded` is a credential that the verifier can be asked about: a
/// PHC string whose parallelism is not beyond the range of Argon2.
pub open spec fn verifiable(encoded: Seq<char>) -> bool {
    phc_params(encoded) matches Some(pairs) && !parallelism_beyond_range(pairs)
}

/// The verdict on a plaintext under a stored credential that parses: whether
/// the digest re-derived from the plaintext equals the stored one. Under a
/// parallelism beyond the range of Argon2 nothing is derived and no plaintext
/// is accepted.
pub open spec fn verdict(plaintext: Seq<u8>, stored: Seq<char>) -> bool {
    verifiable(stored) && argon2_accepts(plaintext, stored)
}

/// The policy error a plaintext of these bytes draws, if any: emptiness is
/// reported before excess length.
pub open spec fn policy_violation(plaintext: Seq<u8>) -> Option<CredentialError> {
    if plaintext.len() == 0 {
        Some(CredentialError::EmptyCredential)
    } else if plaintext.len() > MAX_PASSWORD_LENGTH {
        Some(CredentialError::CredentialTooLong(MAX_PASSWORD_LENGTH))
    } else {
        None
    }
}

/// A plaintext is valid when it has between 1 and `MAX_PASSWORD_LENGTH` bytes.
pub open spec fn valid_plaintext(plaintext: Seq<u8>) -> bool {
    1 <= plaintext.len() <= MAX_PASSWORD_LENGTH
}

/// `encoded` is a credential under which `plaintext` is accepted.
pub open spec fn is_credential_for(encoded: Seq<char>, plaintext: Seq<u8>) -> bool {
    phc_params(encoded) is Some && verdict(plaintext, encoded)
}

/// What hashing a plaintext under a given salt returns: the policy error if
/// there is one; else the credential that Argon2 derives from the plaintext
/// and the salt, the salt read as the text form of a PHC salt; else, where
/// nothing is derived, `HashingFailure`.
pub open spec fn hashed_with(plaintext: Seq<u8>, salt: Seq<char>) -> Result<
    Seq<char>,
    CredentialError,
> {
    match policy_violation(plaintext) {
        Some(e) => Err(e),
        None => match argon2_derived(plaintext, salt) {
            Some(h) => Ok(h),
            None => Err(CredentialError::HashingFailure),
        },
    }
}

/// What hashing a plaintext returns for an outcome of drawing the salt: with
/// a salt, what `hashed_with` gives under it; without one, the policy error
/// if there is one, and else `HashingFailure`.
pub open spec fn hashed_with_drawn(plaintext: Seq<u8>, drawn: Option<Seq<char>>) -> Result<
    Seq<char>,
    CredentialError,
> {
    match drawn {
        Some(salt) => hashed_with(plaintext, salt),
        None => match policy_violation(plaintext) {
            Some(e) => Err(e),
            None => Err(CredentialError::HashingFailure),
        },
    }
}

/// What `hash` may return for a plaintext: what `hashed_with_drawn` gives for
/// some outcome of drawing the salt, and, where that is a credential, one
/// under which the plaintext is accepted.
pub open spec fn hash_outcome(plaintext: Seq<u8>, r: Result<Seq<char>, CredentialError>) -> bool {
    &&& exists|drawn: Option<Seq<char>>| r == hashed_with_drawn(plaintext, drawn)
    &&& r matches Ok(h) ==> is_credential_for(h, plaintext)
}

/// What `compare` returns for a plaintext and a stored credential: the policy
/// error if there is one; `InvalidCredentialFormat` exactly for a stored text
/// that does not parse as a PHC string; else the verdict.
pub open spec fn comparison(plaintext: Seq<u8>, stored: Seq<char>) -> Result<
    bool,
    CredentialError,
> {
    match policy_violation(plaintext) {
        Some(e) => Err(e),
        None => if phc_params(stored) is Some {
            Ok(verdict(plaintext, stored))
        } else {
            Err(CredentialError::InvalidCredentialFormat)
        },
    }
}

/// The view of what drawing a salt handed back.
pub open spec fn salt_view(drawn: Option<String>) -> Option<Seq<char>> {
    match drawn {
        Some(salt) => Some(salt@),
        None => None,
    }
}

/// The view of a hashing result: the credential as a sequence of characters.
pub open spec fn credential_view(r: Result<String, CredentialError>) -> Result<
    Seq<char>,
    CredentialError,
> {
    match r {
        Ok(h) => Ok(h@),
        Err(e) => Err(e),
    }
}

/// Checks a plaintext against the length policy.
pub fn check_policy(password: &str) -> (r: Result<(), CredentialError>)
    ensures
        r == match policy_violation(password.spec_bytes()) {
            Some(e) => Err::<(), CredentialError>(e),
            None => Ok(()),
        },
        r is Ok <==> valid_plaintext(password.spec_bytes()),
{
    let n: usize = password.as_bytes().len();
    if n == 0 {
        Err(CredentialError::EmptyCredential)
    } else if n > MAX_PASSWORD_LENGTH {
        Err(CredentialError::CredentialTooLong(MAX_PASSWORD_LENGTH))
    } else {
        Ok(())
    }
}

/// Turns the outcome of the key derivation into the outcome of `hash`: the
/// credential is handed on unchanged, and any failure of the derivation is
/// reported as `HashingFailure`.
pub fn credential_from<E>(derived: Result<String, E>) -> (r: Result<String, CredentialError>)
    ensures
        match derived {
            Ok(h) => r == Ok::<String, CredentialError>(h),
            Err(_) => r == Err::<String, CredentialError>(CredentialError::HashingFailure),
        },
{
    match derived {
        Ok(h) => Ok(h),
        Err(_) => Err(CredentialError::HashingFailure),
    }
}

/// Turns the outcome of parsing and verifying a stored credential into the
/// outcome of `compare`: a verdict is handed on unchanged, and a credential
/// that did not parse is reported as `InvalidCredentialFormat`.
pub fn comparison_from<E>(checked: Result<bool, E>) -> (r: Result<bool, CredentialError>)
    ensures
        match checked {
            Ok(accepted) => r == Ok::<bool, CredentialError>(accepted),
            Err(_) => r == Err::<bool, CredentialError>(CredentialError::InvalidCredentialFormat),
        },
{
    match checked {
        Ok(accepted) => Ok(accepted),
        Err(_) => Err(CredentialError::InvalidCredentialFormat),
    }
}

/// Tells whether the parameters of a stored credential state a parallelism
/// beyond the range of Argon2.
pub fn beyond_range(pairs: &Vec<(Vec<u8>, Vec<u8>)>) -> (r: bool)
    ensures
        r == parallelism_beyond_range(params_view(pairs@)),
{
    let ghost all = params_view(pairs@);
    let mut i: usize = pairs.len();
    assert(all.subrange(0, i as int) =~= all);
    while i > 0
        invariant
            i <= pairs@.len(),
            all == params_view(pairs@),
            stated_parallelism(all) == stated_parallelism(all.subrange(0, i as int)),
        decreases i,
    {
        let ghost upto = all.subrange(0, i as int);
        assert(upto.last() == all[i - 1]);
        assert(upto.drop_last() =~= all.subrange(0, i - 1));
        let name = pairs[i - 1].0.as_slice();
        if name.len() == 1 && name[0] == PARALLELISM {
            assert(name@ =~= seq![PARALLELISM]);
            return exceeds(pairs[i - 1].1.as_slice(), MAX_PARALLELISM);
        }
        assert(name@ != seq![PARALLELISM]) by {
            if name@.len() == 1 {
                assert(seq![PARALLELISM][0] == PARALLELISM);
            } else {
                assert(seq![PARALLELISM].len() == 1);
            }
        }
        i -= 1;
    }
    assert(all.subrange(0, 0).len() == 0);
    false
}

/// Hashes a password under a given salt, in the text form of a PHC salt.
///
/// The plaintext is held to the policy first. The credential is the one that
/// Argon2, with its default parameters, derives from plaintext and salt: the
/// same two always give the same credential. A salt that is not the text of
/// a PHC salt, or any other failure of the derivation, is `HashingFailure`.
pub fn hash_with_salt(password: &str, salt: &str) -> (r: Result<String, CredentialError>)
    ensures
        credential_view(r) == hashed_with(password.spec_bytes(), salt@),
        r matches Ok(h) ==> is_credential_for(h@, password.spec_bytes()),
{
    match check_policy(password) {
        Err(e) => Err(e),
        Ok(()) => credential_from(derive_credential(password.as_bytes(), salt)),
    }
}

/// Hashes a password under the salt that was drawn, if one was: the result
/// is that of `hash_with_salt` under it. Where none could be drawn, a
/// plaintext that meets the policy fails with `HashingFailure`.
pub fn hash_with_drawn(password: &str, drawn: Option<String>) -> (r: Result<
    String,
    CredentialError,
>)
    ensures
        credential_view(r) == hashed_with_drawn(password.spec_bytes(), salt_view(drawn)),
        r matches Ok(h) ==> is_credential_for(h@, password.spec_bytes()),
{
    match drawn {
        Some(salt) => hash_with_salt(password, salt.as_str()),
        None => match check_policy(password) {
            Err(e) => Err(e),
            Ok(()) => Err(CredentialError::HashingFailure),
        },
    }
}

/// Hashes a password into a new credential.
///
/// An empty plaintext fails with `EmptyCredential`, one of more than
/// `MAX_PASSWORD_LENGTH` bytes with `CredentialTooLong`. For a valid plaintext
/// a fresh random salt is drawn from the operating system, and the result is
/// that of `hash_with_drawn` for what was drawn: a credential under which the
/// plaintext is accepted, or `HashingFailure`.
pub fn hash(password: &str) -> (r: Result<String, CredentialError>)
    ensures
        hash_outcome(password.spec_bytes(), credential_view(r)),
        policy_violation(password.spec_bytes()) matches Some(e) ==> r == Err::<
            String,
            CredentialError,
        >(e),
        valid_plaintext(password.spec_bytes()) && r is Err ==> r == Err::<String, CredentialError>(
            CredentialError::HashingFailure,
        ),
{
    match check_policy(password) {
        Err(e) => {
            assert(credential_view(Err::<String, CredentialError>(e)) == hashed_with_drawn(
                password.spec_bytes(),
                None,
            ));
            Err(e)
        },
        Ok(()) => {
            let drawn = fresh_salt();
            let ghost salt = salt_view(drawn);
            let hashed = hash_with_drawn(password, drawn);
            assert(credential_view(hashed) == hashed_with_drawn(password.spec_bytes(), salt));
            hashed
        },
    }
}

/// Compares a candidate password against a stored credential.
///
/// The plaintext is held to the same policy as in `hash`, with the same
/// errors. A stored credential that is not a PHC string fails with
/// `InvalidCredentialFormat`. Otherwise the result tells whether the digest
/// re-derived from the candidate, with the salt and parameters of the stored
/// credential, equals the stored digest; where Argon2 refuses the parameters,
/// it does not.
pub fn compare(password: &str, hashed_password: &str) -> (r: Result<bool, CredentialError>)
    ensures
        r == comparison(password.spec_bytes(), hashed_password@),
{
    match check_policy(password) {
        Err(e) => Err(e),
        Ok(()) => match read_params(hashed_password) {
            Err(_) => Err(CredentialError::InvalidCredentialFormat),
            Ok(pairs) => {
                if beyond_range(&pairs) {
                    Ok(false)
                } else {
                    comparison_from(check_credential(password.as_bytes(), hashed_password))
                }
            },
        },
    }
}

/// A credential that `hash` returned for a valid plaintext compares as a match
/// with that plaintext.
pub proof fn lemma_hashed_credential_matches(plaintext: Seq<u8>, credential: Seq<char>)
    requires
        hash_outcome(plaintext, Ok(credential)),
    ensures
        comparison(plaintext, credential) == Ok::<bool, CredentialError>(true),
{
}

} // verus!
