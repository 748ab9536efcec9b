//! The tagged result of a protocol step, and the transport status it maps to.

use crate::crypto::jwt::{Claims, JwtError, JwtStatus};
use vstd::prelude::*;

verus! {

/// How a protocol step ended. Failed verifications are outcomes like any
/// other; only the unexpected ends as `InternalFailure`.
#[derive(Debug, PartialEq, Eq)]
pub enum AuthOutcome {
    Authenticated(Claims),
    PasswordInvalid,
    TokenExpiredButValid(Claims),
    TokenInvalid,
    UserNotFound,
    MultipleAccountsConflict,
    RefreshInvalid,
    InternalFailure,
}

/// The transport statuses that the entry points answer with.
#[derive(Clone, Copy, Debug, PartialEq, Eq, Structural)]
pub enum Status {
    Success,
    Created,
    BadRequest,
    Unauthorized,
    NotFound,
    Conflict,
    InternalServerError,
}

impl Status {
    /// The numeric code of the status.
    pub open spec fn spec_code(self) -> int {
        match self {
            Status::Success => 200,
            Status::Created => 201,
            Status::BadRequest => 400,
            Status::Unauthorized => 401,
            Status::NotFound => 404,
            Status::Conflict => 409,
            Status::InternalServerError => 500,
        }
    }

    /// The numeric code of the status.
    pub fn code(&self) -> (r: u16)
        ensures
            r == self.spec_code(),
    {
        match self {
            Status::Success => 200,
            Status::Created => 201,
            Status::BadRequest => 400,
            Status::Unauthorized => 401,
            Status::NotFound => 404,
            Status::Conflict => 409,
            Status::InternalServerError => 500,
        }
    }
}

/// The message that stands for every unexpected failure; it says nothing of
/// the cause.
pub open spec fn internal_error_text() -> Seq<char> {
    "An internal server error has occured"@
}

/// The message that stands for every unexpected failure.
pub fn internal_error() -> (r: String)
    ensures
        r@ == internal_error_text(),
{
    "An internal server error has occured".to_owned()
}

/// The body that hands an access token to the client: the token in double
/// quotes after `AuthToken: `.
pub open spec fn token_body(token: Seq<char>) -> Seq<char> {
    "AuthToken: \""@ + token + "\""@
}

/// The body that hands an access token to the client.
pub fn auth_token_body(token: &str) -> (r: String)
    ensures
        r@ == token_body(token@),
{
    let mut body = "AuthToken: \"".to_owned();
    body.append(token);
    body.append("\"");
    body
}

/// The outcome that a decoded token stands for.
pub open spec fn outcome_matches(outcome: AuthOutcome, decoded: Result<JwtStatus, JwtError>) -> bool {
    match decoded {
        Ok(JwtStatus::Valid(claims)) => outcome matches AuthOutcome::Authenticated(c) && c@
            == claims@,
        Ok(JwtStatus::Expired(claims)) => outcome matches AuthOutcome::TokenExpiredButValid(c)
            && c@ == claims@,
        Err(_) => outcome is TokenInvalid,
    }
}

/// Turns the result of decoding a token into an outcome: a valid token
/// authenticates, an expired one still names its user, anything else is
/// invalid.
pub fn outcome_of(decoded: Result<JwtStatus, JwtError>) -> (outcome: AuthOutcome)
    ensures
        outcome_matches(outcome, decoded),
{
    match decoded {
        Ok(JwtStatus::Valid(claims)) => AuthOutcome::Authenticated(claims),
        Ok(JwtStatus::Expired(claims)) => AuthOutcome::TokenExpiredButValid(claims),
        Err(_) => AuthOutcome::TokenInvalid,
    }
}

} // verus!
