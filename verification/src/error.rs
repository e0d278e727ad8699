//! The closed set of error kinds and how each is surfaced to a client.

use vstd::prelude::*;

verus! {

/// Why the credential hasher refused to hash or compare.
#[derive(Debug, Clone, Copy, PartialEq, Eq, Structural)]
pub enum CredentialError {
    /// The plaintext has no bytes.
    EmptyCredential,
    /// The plaintext has more bytes than the limit this variant carries.
    CredentialTooLong(usize),
    /// The key derivation itself failed; nothing the caller passed is at fault.
    HashingFailure,
    /// The stored credential is not a self-describing hash string.
    InvalidCredentialFormat,
}

/// Why the token guard turned a request away.
#[derive(Debug, Clone, Copy, PartialEq, Eq, Structural)]
pub enum Rejection {
    /// The request carries no bearer token, or its carrier is malformed.
    MissingToken,
    /// The token is malformed, names another algorithm, or its signature does
    /// not verify under the signing secret.
    InvalidToken,
    /// The token's expiry time has been reached.
    TokenExpired,
    /// No user record exists for the token's subject.
    UserNotFound,
    /// The user lookup itself failed.
    InternalError,
}

/// How an error is surfaced once it reaches the boundary to the client.
#[derive(Debug, Clone, Copy, PartialEq, Eq, Structural)]
pub enum ErrorClass {
    /// The caller's input broke a stated limit: a validation failure.
    CallerInput,
    /// The request did not prove an identity.
    Authentication,
    /// Something behind the boundary failed; no detail is given out.
    Internal,
}

impl ErrorClass {
    /// The HTTP status that stands for the class.
    pub open spec fn status(self) -> u16 {
        match self {
            ErrorClass::CallerInput => 400,
            ErrorClass::Authentication => 401,
            ErrorClass::Internal => 500,
        }
    }

    /// The HTTP status that stands for the class.
    pub fn status_code(&self) -> (code: u16)
        ensures
            code == self.status(),
    {
        match self {
            ErrorClass::CallerInput => 400,
            ErrorClass::Authentication => 401,
            ErrorClass::Internal => 500,
        }
    }
}

impl CredentialError {
    /// A plaintext that breaks the length policy is the caller's error; a
    /// failed derivation and a corrupt stored credential are internal.
    pub open spec fn classification(self) -> ErrorClass {
        match self {
            CredentialError::EmptyCredential => ErrorClass::CallerInput,
            CredentialError::CredentialTooLong(_) => ErrorClass::CallerInput,
            CredentialError::HashingFailure => ErrorClass::Internal,
            CredentialError::InvalidCredentialFormat => ErrorClass::Internal,
        }
    }

    /// The message a client is given. The two internal errors share the
    /// message of every internal error, which gives no detail.
    pub open spec fn public_text(self) -> Seq<char> {
        match self {
            CredentialError::EmptyCredential => "Password cannot be empty"@,
            CredentialError::CredentialTooLong(_) => "Password is too long"@,
            CredentialError::HashingFailure => "Server error, please try again later"@,
            CredentialError::InvalidCredentialFormat => "Server error, please try again later"@,
        }
    }

    /// The message a client is given for the error.
    pub fn public_message(&self) -> (message: &'static str)
        ensures
            message@ == self.public_text(),
            self.classification() == ErrorClass::Internal ==> message@
                == Rejection::InternalError.public_text(),
    {
        match self {
            CredentialError::EmptyCredential => "Password cannot be empty",
            CredentialError::CredentialTooLong(_) => "Password is too long",
            CredentialError::HashingFailure => "Server error, please try again later",
            CredentialError::InvalidCredentialFormat => "Server error, please try again later",
        }
    }

    /// The class under which the error is surfaced.
    pub fn class(&self) -> (class: ErrorClass)
        ensures
            class == self.classification(),
    {
        match self {
            CredentialError::EmptyCredential => ErrorClass::CallerInput,
            CredentialError::CredentialTooLong(_) => ErrorClass::CallerInput,
            CredentialError::HashingFailure => ErrorClass::Internal,
            CredentialError::InvalidCredentialFormat => ErrorClass::Internal,
        }
    }
}

impl Rejection {
    /// A missing, invalid or expired token and an unknown subject are
    /// authentication errors; a failed lookup is internal.
    pub open spec fn classification(self) -> ErrorClass {
        match self {
            Rejection::InternalError => ErrorClass::Internal,
            _ => ErrorClass::Authentication,
        }
    }

    /// The message a client is given. An invalid token and an unknown subject
    /// share one message, so that a client cannot tell which users exist.
    pub open spec fn public_text(self) -> Seq<char> {
        match self {
            Rejection::MissingToken => "You are not logged in, please provide a token"@,
            Rejection::InvalidToken => "Authentication token is invalid"@,
            Rejection::UserNotFound => "Authentication token is invalid"@,
            Rejection::TokenExpired => "Authentication token has expired"@,
            Rejection::InternalError => "Server error, please try again later"@,
        }
    }

    /// The class under which the rejection is surfaced.
    pub fn class(&self) -> (class: ErrorClass)
        ensures
            class == self.classification(),
    {
        match self {
            Rejection::InternalError => ErrorClass::Internal,
            _ => ErrorClass::Authentication,
        }
    }

    /// The message a client is given for the rejection.
    pub fn public_message(&self) -> (message: &'static str)
        ensures
            message@ == self.public_text(),
            *self == Rejection::UserNotFound ==> message@
                == Rejection::InvalidToken.public_text(),
    {
        match self {
            Rejection::MissingToken => "You are not logged in, please provide a token",
            Rejection::InvalidToken => "Authentication token is invalid",
            Rejection::UserNotFound => "Authentication token is invalid",
            Rejection::TokenExpired => "Authentication token has expired",
            Rejection::InternalError => "Server error, please try again later",
        }
    }
}

} // verus!
