use server::crypto::config::JwtConfig;
use server::crypto::jwt::{create_jwt_at, Claims, JwtError, JwtStatus};
use server::db::user::AuthUser;
use server::routes::accounts::refresh_token::RefreshUser;
use server::routes::guard::{extract_bearer, ExtractError, Guard};
use server::routes::outcome::{auth_token_body, internal_error, outcome_of, AuthOutcome, Status};

fn guard_config() -> JwtConfig {
    JwtConfig::new("guard secret".to_string(), 60).unwrap()
}

fn bearer(now: i64) -> String {
    let token = create_jwt_at(&guard_config(), "bob".to_string(), 42, now).unwrap();
    format!("Bearer {}", token)
}

#[test]
fn extract_bearer_takes_what_follows_the_prefix() {
    assert_eq!(extract_bearer("Bearer abc.def.ghi"), Ok("abc.def.ghi"));
    assert_eq!(extract_bearer("Bearer "), Ok(""));
    assert_eq!(extract_bearer("Bearer  two spaces"), Ok(" two spaces"));
    assert_eq!(extract_bearer("Bearer Bearer x"), Ok("Bearer x"));
    assert_eq!(extract_bearer("Bearer z\u{e9}\u{1f600}"), Ok("z\u{e9}\u{1f600}"));
}

#[test]
fn extract_bearer_refuses_other_headers() {
    for header in ["", "Bearer", "bearer abc", "BEARER abc", "Basic abc", " Bearer abc", "Bearer\tabc", "Beare", "\u{e9}\u{e9}\u{e9}\u{e9}\u{e9}\u{e9}\u{e9}\u{e9}"] {
        assert_eq!(extract_bearer(header), Err(ExtractError::NotBearer), "{:?}", header);
    }
}

#[test]
fn auth_guard_accepts_a_valid_token() {
    let header = bearer(1000);
    assert_eq!(
        AuthUser::from_header(&guard_config(), Some(&header), 1059),
        Guard::Success(AuthUser { user_id: 42, username: "bob".to_string() })
    );
}

#[test]
fn auth_guard_fails_an_expired_token() {
    let header = bearer(1000);
    assert_eq!(
        AuthUser::from_header(&guard_config(), Some(&header), 1060),
        Guard::Failure(Status::Unauthorized)
    );
}

#[test]
fn auth_guard_fails_an_invalid_token() {
    assert_eq!(
        AuthUser::from_header(&guard_config(), Some("Bearer a.b.c"), 0),
        Guard::Failure(Status::Unauthorized)
    );
    assert_eq!(
        AuthUser::from_header(&guard_config(), Some("Bearer "), 0),
        Guard::Failure(Status::Unauthorized)
    );
}

#[test]
fn auth_guard_forwards_without_a_bearer_header() {
    assert_eq!(
        AuthUser::from_header(&guard_config(), None, 0),
        Guard::Forward(Status::Unauthorized)
    );
    assert_eq!(
        AuthUser::from_header(&guard_config(), Some("Basic abc"), 0),
        Guard::Forward(Status::BadRequest)
    );
    let token = bearer(1000);
    assert_eq!(
        AuthUser::from_header(&guard_config(), Some(&token[7..]), 1000),
        Guard::Forward(Status::BadRequest)
    );
}

#[test]
fn refresh_guard_accepts_valid_and_expired_tokens() {
    let header = bearer(1000);
    let bob = || Guard::Success(RefreshUser { user_id: 42, username: "bob".to_string() });
    assert_eq!(RefreshUser::from_header(&guard_config(), Some(&header), 1000), bob());
    assert_eq!(RefreshUser::from_header(&guard_config(), Some(&header), 1060), bob());
    assert_eq!(RefreshUser::from_header(&guard_config(), Some(&header), 999_999), bob());
}

#[test]
fn refresh_guard_fails_a_forged_token() {
    let mut header = bearer(1000);
    let last = header.pop().unwrap();
    header.push(if last == 'A' { 'B' } else { 'A' });
    assert_eq!(
        RefreshUser::from_header(&guard_config(), Some(&header), 1000),
        Guard::Failure(Status::Unauthorized)
    );
}

#[test]
fn refresh_guard_forwards_without_a_bearer_header() {
    assert_eq!(
        RefreshUser::from_header(&guard_config(), None, 0),
        Guard::Forward(Status::Unauthorized)
    );
    assert_eq!(
        RefreshUser::from_header(&guard_config(), Some("Token abc"), 0),
        Guard::Forward(Status::BadRequest)
    );
}

#[test]
fn status_codes_are_the_http_codes() {
    assert_eq!(Status::Success.code(), 200);
    assert_eq!(Status::Created.code(), 201);
    assert_eq!(Status::BadRequest.code(), 400);
    assert_eq!(Status::Unauthorized.code(), 401);
    assert_eq!(Status::NotFound.code(), 404);
    assert_eq!(Status::Conflict.code(), 409);
    assert_eq!(Status::InternalServerError.code(), 500);
}

#[test]
fn outcome_of_a_decoded_token() {
    let claims = || Claims { user_id: 1, username: "a".to_string(), exp: 5 };
    assert_eq!(outcome_of(Ok(JwtStatus::Valid(claims()))), AuthOutcome::Authenticated(claims()));
    assert_eq!(
        outcome_of(Ok(JwtStatus::Expired(claims()))),
        AuthOutcome::TokenExpiredButValid(claims())
    );
    assert_eq!(outcome_of(Err(JwtError::TokenInvalid)), AuthOutcome::TokenInvalid);
}

#[test]
fn token_body_quotes_the_token() {
    assert_eq!(auth_token_body("a.b.c"), "AuthToken: \"a.b.c\"");
    assert_eq!(auth_token_body(""), "AuthToken: \"\"");
    assert_eq!(internal_error(), "An internal server error has occured");
}
