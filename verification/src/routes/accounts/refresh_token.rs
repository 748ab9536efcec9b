//! Refresh: a new access token for a client that presents a correctly signed
//! token, expired or not, and the refresh secret of its last sign-in.
//!
//! No new refresh secret is issued here: a secret lives until the user's next
//! sign-in replaces its hash in the store.

use crate::crypto::config::JwtConfig;
use crate::crypto::create_refresh::verify_refresh;
use crate::crypto::hash::accepts;
use crate::crypto::jwt::{
    claims_of, create_jwt_at, decode_jwt_at, hs256_token, token_status, trusted_claims, Claims,
    ClaimsView, JwtStatus,
};
use crate::db::create_refresh_entry::RefreshToken;
use crate::db::user::User;
use crate::db::StoreError;
use crate::routes::accounts::signin::{pending_for, PendingSignin};
use crate::routes::guard::{extract_bearer, is_bearer, text_of, Guard};
use crate::routes::outcome::{
    auth_token_body, internal_error, internal_error_text, token_body, AuthOutcome, Status,
};
use vstd::prelude::*;

verus! {

/// The user named by the token that came with a refresh request. The token
/// may have expired: its claims serve to find the user, not to authorize.
#[derive(Debug, PartialEq, Eq)]
pub struct RefreshUser {
    pub user_id: i64,
    pub username: String,
}

/// What a refresh hands to the transport layer: the token is there exactly
/// when the outcome is `Authenticated`.
#[derive(Debug, PartialEq, Eq)]
pub struct RefreshReply {
    pub outcome: AuthOutcome,
    pub token: Option<String>,
}

/// What the guard of the refresh route answers for an `Authorization` header
/// at time `now`.
pub open spec fn guards_refresh(
    g: Guard<RefreshUser>,
    secret: Seq<char>,
    header: Option<Seq<char>>,
    now: int,
) -> bool {
    match header {
        None => g == Guard::<RefreshUser>::Forward(Status::Unauthorized),
        Some(h) => if !is_bearer(h) {
            g == Guard::<RefreshUser>::Forward(Status::BadRequest)
        } else {
            match token_status(secret, h.subrange(7, h.len() as int), now) {
                Ok(status) => g matches Guard::Success(user) && user.user_id == claims_of(
                    status,
                ).user_id && user.username@ == claims_of(status).username,
                Err(_) => g == Guard::<RefreshUser>::Failure(Status::Unauthorized),
            }
        },
    }
}

impl RefreshUser {
    /// Guards the refresh route: a bearer token that is correctly signed names
    /// the user, whether it has expired or not.
    ///
    /// No header forwards as unauthorized, a header of another scheme as a bad
    /// request; an invalid token fails as unauthorized.
    pub fn from_header(config: &JwtConfig, header: Option<&str>, now: i64) -> (g: Guard<
        RefreshUser,
    >)
        ensures
            guards_refresh(g, config.spec_secret(), text_of(header), now as int),
    {
        match header {
            None => Guard::Forward(Status::Unauthorized),
            Some(h) => match extract_bearer(h) {
                Err(_) => Guard::Forward(Status::BadRequest),
                Ok(key) => match decode_jwt_at(config, key, now) {
                    Ok(JwtStatus::Expired(claims)) => Guard::Success(
                        RefreshUser { user_id: claims.user_id, username: claims.username },
                    ),
                    Ok(JwtStatus::Valid(claims)) => Guard::Success(
                        RefreshUser { user_id: claims.user_id, username: claims.username },
                    ),
                    Err(_) => Guard::Failure(Status::Unauthorized),
                },
            },
        }
    }
}

/// Whether the presented secret is the live one of the record.
pub open spec fn secret_matches(entry: RefreshToken, presented: Option<Seq<char>>) -> bool {
    presented matches Some(secret) && accepts(entry.refresh_token@, secret)
}

/// What a refresh for `user` at time `now` yields, given the store's answer
/// and the secret that the client presented.
pub open spec fn refreshes(
    reply: RefreshReply,
    secret: Seq<char>,
    lifetime: int,
    user: RefreshUser,
    entry: Result<RefreshToken, StoreError>,
    presented: Option<Seq<char>>,
    now: int,
) -> bool {
    let exp = now + lifetime;
    let issued = hs256_token(secret, user.user_id as int, user.username@, exp);
    match entry {
        Err(StoreError::RowNotFound) => reply.outcome is UserNotFound && reply.token is None,
        Err(_) => reply.outcome is InternalFailure && reply.token is None,
        Ok(record) => if !secret_matches(record, presented) {
            reply.outcome is RefreshInvalid && reply.token is None
        } else if exp <= i64::MAX && issued is Some {
            &&& reply.outcome matches AuthOutcome::Authenticated(claims)
            &&& claims@ == ClaimsView { user_id: user.user_id as int, username: user.username@, exp }
            &&& reply.token matches Some(token)
            &&& token@ == issued->0
            &&& exp >= 0 ==> trusted_claims(secret, token@) == Some(claims@)
        } else {
            reply.outcome is InternalFailure && reply.token is None
        },
    }
}

/// Decides a refresh once the store has answered the lookup of the user's
/// record.
///
/// A user without a record is not found, and any other failure of the store
/// is internal. A request without a secret, or with one that the stored hash
/// does not accept, is refused as `RefreshInvalid`: a secret from before the
/// user's last sign-in ends here. A secret that matches earns a fresh access
/// token for the same user.
pub fn refresh_decide(
    config: &JwtConfig,
    user: RefreshUser,
    entry: Result<RefreshToken, StoreError>,
    presented: Option<&str>,
    now: i64,
) -> (reply: RefreshReply)
    ensures
        refreshes(
            reply,
            config.spec_secret(),
            config.spec_expire_time(),
            user,
            entry,
            text_of(presented),
            now as int,
        ),
{
    match entry {
        Err(StoreError::RowNotFound) => RefreshReply {
            outcome: AuthOutcome::UserNotFound,
            token: None,
        },
        Err(_) => RefreshReply { outcome: AuthOutcome::InternalFailure, token: None },
        Ok(record) => {
            let live = match presented {
                Some(secret) => verify_refresh(record.refresh_token.as_str(), secret),
                None => false,
            };
            if !live {
                RefreshReply { outcome: AuthOutcome::RefreshInvalid, token: None }
            } else {
                match create_jwt_at(config, user.username.clone(), user.user_id, now) {
                    Err(_) => RefreshReply { outcome: AuthOutcome::InternalFailure, token: None },
                    Ok(token) => {
                        let lifetime: i64 = config.expire_time();
                        let exp: i64 = now + lifetime;
                        RefreshReply {
                            outcome: AuthOutcome::Authenticated(
                                Claims { user_id: user.user_id, username: user.username, exp },
                            ),
                            token: Some(token),
                        }
                    },
                }
            }
        },
    }
}

/// The secret that a sign-in hands out is live against the record that the
/// same sign-in had stored: a refresh that presents it, for whichever user, is
/// never refused as `RefreshInvalid`, and ends in a fresh token whenever one
/// can be issued.
pub proof fn lemma_issued_secret_is_live(
    reply: RefreshReply,
    secret: Seq<char>,
    lifetime: int,
    pending: PendingSignin,
    signed_in: User,
    user: RefreshUser,
    now: int,
)
    requires
        pending_for(pending, signed_in),
        refreshes(
            reply,
            secret,
            lifetime,
            user,
            Ok(pending.record),
            Some(pending.cookie.value@),
            now,
        ),
    ensures
        reply.outcome is Authenticated || reply.outcome is InternalFailure,
        reply.outcome is Authenticated <==> now + lifetime <= i64::MAX && hs256_token(
            secret,
            user.user_id as int,
            user.username@,
            now + lifetime,
        ) is Some,
{
}

/// A secret that the stored hash does not accept earns nothing, whatever else
/// holds: so it is with every secret from before the user's last sign-in,
/// unless the new hash happens to accept it.
pub proof fn lemma_stale_secret_is_refused(
    reply: RefreshReply,
    secret: Seq<char>,
    lifetime: int,
    user: RefreshUser,
    record: RefreshToken,
    presented: Seq<char>,
    now: int,
)
    requires
        !accepts(record.refresh_token@, presented),
        refreshes(reply, secret, lifetime, user, Ok(record), Some(presented), now),
    ensures
        reply.outcome is RefreshInvalid,
        reply.token is None,
{
}

/// The status and body that answer a refresh; `presented` tells whether the
/// request carried a refresh secret at all.
pub open spec fn refresh_answer(outcome: AuthOutcome, token: Option<String>, presented: bool) -> (
    Status,
    Seq<char>,
) {
    match outcome {
        AuthOutcome::Authenticated(_) => match token {
            Some(t) => (Status::Success, token_body(t@)),
            None => (Status::InternalServerError, internal_error_text()),
        },
        AuthOutcome::UserNotFound => (Status::NotFound, "User doesn't exist"@),
        AuthOutcome::RefreshInvalid => if presented {
            (Status::Unauthorized, "Refresh token is invalid"@)
        } else {
            (Status::Unauthorized, "No valid refresh token"@)
        },
        _ => (Status::InternalServerError, internal_error_text()),
    }
}

/// Maps the outcome of a refresh to the status and body for the client. An
/// unexpected failure is reported without any detail.
pub fn refresh_response(outcome: &AuthOutcome, token: &Option<String>, presented: bool) -> (r: (
    Status,
    String,
))
    ensures
        r.0 == refresh_answer(*outcome, *token, presented).0,
        r.1@ == refresh_answer(*outcome, *token, presented).1,
{
    match outcome {
        AuthOutcome::Authenticated(_) => match token {
            Some(t) => (Status::Success, auth_token_body(t.as_str())),
            None => (Status::InternalServerError, internal_error()),
        },
        AuthOutcome::UserNotFound => (Status::NotFound, "User doesn't exist".to_owned()),
        AuthOutcome::RefreshInvalid => if presented {
            (Status::Unauthorized, "Refresh token is invalid".to_owned())
        } else {
            (Status::Unauthorized, "No valid refresh token".to_owned())
        },
        _ => (Status::InternalServerError, internal_error()),
    }
}

} // verus!
