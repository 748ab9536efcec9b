//! Sign-in: from the credential records of a username and a password to an
//! access token and a fresh refresh credential.
//!
//! The store is asked twice, for the records and to keep the new refresh
//! hash; what is decided before, between and after stands here.

use crate::crypto::config::JwtConfig;
use crate::crypto::create_refresh::{
    create_refresh, is_refresh_secret, is_scoped, RefreshCookie, RefreshError,
};
use crate::crypto::hash::{accepts, PasswordHash};
use crate::crypto::jwt::{create_jwt_at, hs256_token, trusted_claims, Claims, ClaimsView};
use crate::db::create_refresh_entry::RefreshToken;
use crate::db::user::User;
use crate::db::StoreError;
use crate::routes::outcome::{
    auth_token_body, internal_error, internal_error_text, token_body, AuthOutcome, Status,
};
use vstd::prelude::*;

verus! {

/// A sign-in whose password was right and whose refresh credential is issued
/// but not yet kept by the store.
#[derive(Debug, PartialEq, Eq)]
pub struct PendingSignin {
    /// The user who signs in.
    pub user_id: i64,
    pub username: String,
    /// The record to upsert, keyed by the user.
    pub record: RefreshToken,
    /// The cookie to hand out once the record is kept.
    pub cookie: RefreshCookie,
}

/// What the first half of a sign-in decided.
#[derive(Debug, PartialEq, Eq)]
pub enum SigninStep {
    /// The sign-in ends here with this outcome.
    Rejected(AuthOutcome),
    /// The store is to keep the record; then the sign-in can be finished.
    Pending(PendingSignin),
}

/// What a finished sign-in hands to the transport layer: the token and the
/// cookie are there exactly when the outcome is `Authenticated`.
#[derive(Debug, PartialEq, Eq)]
pub struct SigninReply {
    pub outcome: AuthOutcome,
    pub token: Option<String>,
    pub cookie: Option<RefreshCookie>,
}

/// Whether `pending` is a sign-in of `user` with a well-made credential: the
/// record is keyed by the user and its hash verifies against the cookie's
/// secret.
pub open spec fn pending_for(pending: PendingSignin, user: User) -> bool {
    &&& pending.user_id == user.user_id
    &&& pending.username@ == user.username@
    &&& pending.record.user_id == user.user_id
    &&& is_scoped(pending.cookie)
    &&& accepts(pending.record.refresh_token@, pending.cookie.value@)
}

/// Picks the one account among the records found for a username: none is an
/// unknown user, more than one a fault in the data.
pub fn select_account(users: &Vec<User>) -> (r: Result<&User, AuthOutcome>)
    ensures
        users.len() == 0 ==> r == Err::<&User, AuthOutcome>(AuthOutcome::UserNotFound),
        users.len() == 1 ==> r == Ok::<&User, AuthOutcome>(&users[0]),
        users.len() >= 2 ==> r == Err::<&User, AuthOutcome>(AuthOutcome::MultipleAccountsConflict),
{
    let found: usize = users.len();
    if found >= 2 {
        Err(AuthOutcome::MultipleAccountsConflict)
    } else if found == 1 {
        Ok(&users[0])
    } else {
        Err(AuthOutcome::UserNotFound)
    }
}

/// Checks a password against the stored hash of `user`. A stored string that
/// is no hash matches nothing.
pub fn check_password(user: &User, password: &str) -> (r: bool)
    ensures
        r == accepts(user.password@, password@),
{
    let hash = PasswordHash::from(user.password.clone());
    match hash.verify(&password.to_owned()) {
        Ok(accepted) => accepted,
        Err(_) => false,
    }
}

/// Binds an issued refresh credential to the user who signed in; a credential
/// that could not be issued ends the sign-in as an internal failure.
pub fn bind_credential(user: &User, issued: Result<(RefreshCookie, String), RefreshError>) -> (r:
    SigninStep)
    ensures
        match issued {
            Ok(credential) => r matches SigninStep::Pending(p) && p.user_id == user.user_id
                && p.username@ == user.username@ && p.record.user_id == user.user_id
                && p.record.refresh_token@ == credential.1@ && p.cookie == credential.0,
            Err(_) => r == SigninStep::Rejected(AuthOutcome::InternalFailure),
        },
{
    match issued {
        Ok((cookie, hash)) => SigninStep::Pending(
            PendingSignin {
                user_id: user.user_id,
                username: user.username.clone(),
                record: RefreshToken { user_id: user.user_id, refresh_token: hash },
                cookie,
            },
        ),
        Err(_) => SigninStep::Rejected(AuthOutcome::InternalFailure),
    }
}

/// The first half of a sign-in, on the store's answer to the lookup of the
/// username.
///
/// A store that failed is an internal failure. No record is an unknown user;
/// several are a conflict; with one record a password that its hash does not
/// accept is rejected. Only then is a refresh credential issued, and whatever
/// was drawn for it, the step is either an internal failure or a pending
/// sign-in of that user with a well-made credential.
pub fn signin_begin(found: Result<Vec<User>, StoreError>, password: &str) -> (r: SigninStep)
    ensures
        match found {
            Err(_) => r == SigninStep::Rejected(AuthOutcome::InternalFailure),
            Ok(users) => if users.len() == 0 {
                r == SigninStep::Rejected(AuthOutcome::UserNotFound)
            } else if users.len() >= 2 {
                r == SigninStep::Rejected(AuthOutcome::MultipleAccountsConflict)
            } else if !accepts(users[0].password@, password@) {
                r == SigninStep::Rejected(AuthOutcome::PasswordInvalid)
            } else {
                ||| r == SigninStep::Rejected(AuthOutcome::InternalFailure)
                ||| r matches SigninStep::Pending(p) && pending_for(p, users[0])
                    && is_refresh_secret(p.cookie.value@)
            },
        },
{
    match found {
        Err(_) => SigninStep::Rejected(AuthOutcome::InternalFailure),
        Ok(users) => match select_account(&users) {
            Err(outcome) => SigninStep::Rejected(outcome),
            Ok(user) => {
                if !check_password(user, password) {
                    SigninStep::Rejected(AuthOutcome::PasswordInvalid)
                } else {
                    bind_credential(user, create_refresh())
                }
            },
        },
    }
}

/// What finishing `pending` at time `now` yields, given whether the store kept
/// the record.
pub open spec fn finishes(
    reply: SigninReply,
    secret: Seq<char>,
    lifetime: int,
    pending: PendingSignin,
    kept: bool,
    now: int,
) -> bool {
    let exp = now + lifetime;
    let issued = hs256_token(secret, pending.user_id as int, pending.username@, exp);
    if kept && exp <= i64::MAX && issued is Some {
        &&& reply.outcome matches AuthOutcome::Authenticated(claims)
        &&& claims@ == ClaimsView {
            user_id: pending.user_id as int,
            username: pending.username@,
            exp,
        }
        &&& reply.token matches Some(token)
        &&& token@ == issued->0
        &&& exp >= 0 ==> trusted_claims(secret, token@) == Some(claims@)
        &&& reply.cookie == Some(pending.cookie)
    } else {
        &&& reply.outcome is InternalFailure
        &&& reply.token is None
        &&& reply.cookie is None
    }
}

/// The second half of a sign-in, once the store has answered the upsert.
///
/// A store that failed ends the sign-in as an internal failure, and so does a
/// token that cannot be issued. Otherwise the user is authenticated: the reply
/// holds the access token, which carries the claims of the outcome, and the
/// cookie with the refresh secret.
pub fn signin_finish(
    config: &JwtConfig,
    pending: PendingSignin,
    stored: Result<(), StoreError>,
    now: i64,
) -> (reply: SigninReply)
    ensures
        finishes(
            reply,
            config.spec_secret(),
            config.spec_expire_time(),
            pending,
            stored is Ok,
            now as int,
        ),
{
    match stored {
        Err(_) => SigninReply { outcome: AuthOutcome::InternalFailure, token: None, cookie: None },
        Ok(_) => match create_jwt_at(config, pending.username.clone(), pending.user_id, now) {
            Err(_) => SigninReply {
                outcome: AuthOutcome::InternalFailure,
                token: None,
                cookie: None,
            },
            Ok(token) => {
                let lifetime: i64 = config.expire_time();
                let exp: i64 = now + lifetime;
                SigninReply {
                    outcome: AuthOutcome::Authenticated(
                        Claims { user_id: pending.user_id, username: pending.username, exp },
                    ),
                    token: Some(token),
                    cookie: Some(pending.cookie),
                }
            },
        },
    }
}

/// The status and body that answer a sign-in.
pub open spec fn signin_answer(outcome: AuthOutcome, token: Option<String>) -> (Status, Seq<char>) {
    match outcome {
        AuthOutcome::Authenticated(_) => match token {
            Some(t) => (Status::Success, token_body(t@)),
            None => (Status::InternalServerError, internal_error_text()),
        },
        AuthOutcome::PasswordInvalid => (Status::Unauthorized, "Password is incorrect"@),
        AuthOutcome::UserNotFound => (Status::NotFound, "No account found by that username"@),
        AuthOutcome::MultipleAccountsConflict => (
            Status::InternalServerError,
            "An error with this account has occured, please contact support"@,
        ),
        _ => (Status::InternalServerError, internal_error_text()),
    }
}

/// Maps the outcome of a sign-in to the status and body for the client. An
/// unexpected failure is reported without any detail.
pub fn signin_response(outcome: &AuthOutcome, token: &Option<String>) -> (r: (Status, String))
    ensures
        r.0 == signin_answer(*outcome, *token).0,
        r.1@ == signin_answer(*outcome, *token).1,
{
    match outcome {
        AuthOutcome::Authenticated(_) => match token {
            Some(t) => (Status::Success, auth_token_body(t.as_str())),
            None => (Status::InternalServerError, internal_error()),
        },
        AuthOutcome::PasswordInvalid => (Status::Unauthorized, "Password is incorrect".to_owned()),
        AuthOutcome::UserNotFound => (
            Status::NotFound,
            "No account found by that username".to_owned(),
        ),
        AuthOutcome::MultipleAccountsConflict => (
            Status::InternalServerError,
            "An error with this account has occured, please contact support".to_owned(),
        ),
        _ => (Status::InternalServerError, internal_error()),
    }
}

} // verus!
