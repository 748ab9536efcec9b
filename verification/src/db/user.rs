//! User records, and the identity that a protected route works with.

use crate::crypto::config::JwtConfig;
use crate::crypto::jwt::{decode_jwt_at, token_status, JwtStatus, JwtStatusView};
use crate::routes::guard::{extract_bearer, is_bearer, text_of, Guard};
use crate::routes::outcome::Status;
use vstd::prelude::*;

verus! {

/// A user as the store holds it; `password` is the credential hash.
#[derive(Debug, PartialEq, Eq)]
pub struct User {
    pub user_id: i64,
    pub username: String,
    pub password: String,
}

/// What a client sends to create an account or to sign in.
#[derive(Debug, PartialEq, Eq)]
pub struct UserArgs {
    pub username: String,
    pub password: String,
}

/// The identity behind a request that presented a valid access token.
#[derive(Debug, PartialEq, Eq)]
pub struct AuthUser {
    pub user_id: isize,
    pub username: String,
}

/// What the guard of a protected route answers for an `Authorization` header
/// at time `now`.
pub open spec fn guards_auth(
    g: Guard<AuthUser>,
    secret: Seq<char>,
    header: Option<Seq<char>>,
    now: int,
) -> bool {
    match header {
        None => g == Guard::<AuthUser>::Forward(Status::Unauthorized),
        Some(h) => if !is_bearer(h) {
            g == Guard::<AuthUser>::Forward(Status::BadRequest)
        } else {
            match token_status(secret, h.subrange(7, h.len() as int), now) {
                Ok(JwtStatusView::Valid(claims)) => g matches Guard::Success(user) && user.user_id
                    == claims.user_id as isize && user.username@ == claims.username,
                _ => g == Guard::<AuthUser>::Failure(Status::Unauthorized),
            }
        },
    }
}

impl AuthUser {
    /// Guards a protected route: only a bearer token that is correctly signed
    /// and not yet expired yields an identity.
    ///
    /// No header forwards as unauthorized, a header of another scheme as a bad
    /// request; an expired or invalid token fails as unauthorized.
    pub fn from_header(config: &JwtConfig, header: Option<&str>, now: i64) -> (g: Guard<AuthUser>)
        ensures
            guards_auth(g, config.spec_secret(), text_of(header), now as int),
    {
        match header {
            None => Guard::Forward(Status::Unauthorized),
            Some(h) => match extract_bearer(h) {
                Err(_) => Guard::Forward(Status::BadRequest),
                Ok(key) => match decode_jwt_at(config, key, now) {
                    Ok(JwtStatus::Valid(claims)) => Guard::Success(
                        AuthUser { user_id: claims.user_id as isize, username: claims.username },
                    ),
                    _ => Guard::Failure(Status::Unauthorized),
                },
            },
        }
    }
}

} // verus!
