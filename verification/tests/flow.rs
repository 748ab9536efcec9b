use server::crypto::config::JwtConfig;
use server::crypto::create_refresh::{RefreshCookie, RefreshError, SameSite};
use server::crypto::hash::PasswordHash;
use server::crypto::jwt::{decode_jwt_at, Claims, JwtStatus};
use server::db::create_refresh_entry::RefreshToken;
use server::db::StoreError;
use server::db::create_user::error_for_code;
use server::db::get_refresh_entry::first_entry;
use server::db::user::{User, UserArgs};
use server::routes::accounts::create_account::{
    create_begin, create_finish, create_response, CreateOutcome,
};
use server::routes::accounts::refresh_token::{
    refresh_decide, refresh_response, RefreshReply, RefreshUser,
};
use server::routes::accounts::signin::{
    bind_credential, check_password, select_account, signin_begin, signin_finish, signin_response,
    PendingSignin, SigninReply, SigninStep,
};
use server::routes::guard::Guard;
use server::routes::outcome::{AuthOutcome, Status};
use std::collections::HashMap;

const INTERNAL: &str = "An internal server error has occured";

/// The store collaborator, in memory: users by insertion, one refresh record
/// per user id.
struct Store {
    users: Vec<User>,
    refresh: HashMap<i64, String>,
}

impl Store {
    fn new() -> Self {
        Store { users: Vec::new(), refresh: HashMap::new() }
    }

    fn insert_user(&mut self, user_id: i64, args: UserArgs) {
        self.users.push(User { user_id, username: args.username, password: args.password });
    }

    fn find(&self, username: &str) -> Vec<User> {
        self.users
            .iter()
            .filter(|u| u.username == username)
            .map(|u| User {
                user_id: u.user_id,
                username: u.username.clone(),
                password: u.password.clone(),
            })
            .collect()
    }

    fn upsert(&mut self, record: RefreshToken) -> Result<(), StoreError> {
        self.refresh.insert(record.user_id, record.refresh_token);
        Ok(())
    }

    fn entry(&self, user_id: i64) -> Result<RefreshToken, StoreError> {
        let rows: Vec<RefreshToken> = self
            .refresh
            .get(&user_id)
            .map(|hash| RefreshToken { user_id, refresh_token: hash.clone() })
            .into_iter()
            .collect();
        first_entry(rows)
    }
}

fn flow_config() -> JwtConfig {
    JwtConfig::new("flow secret".to_string(), 100).unwrap()
}

fn store_with_alice() -> Store {
    let mut store = Store::new();
    let args = UserArgs { username: "alice".to_string(), password: "pw123".to_string() };
    store.insert_user(1, create_begin(&args).unwrap());
    store
}

fn sign_in(store: &mut Store, username: &str, password: &str, now: i64) -> SigninReply {
    match signin_begin(Ok(store.find(username)), password) {
        SigninStep::Rejected(outcome) => SigninReply { outcome, token: None, cookie: None },
        SigninStep::Pending(pending) => {
            let stored = store.upsert(pending.record.clone());
            signin_finish(&flow_config(), pending, stored, now)
        }
    }
}

fn refresh(store: &Store, token: &str, secret: Option<&str>, now: i64) -> RefreshReply {
    let header = format!("Bearer {}", token);
    match RefreshUser::from_header(&flow_config(), Some(&header), now) {
        Guard::Success(user) => {
            let entry = store.entry(user.user_id);
            refresh_decide(&flow_config(), user, entry, secret, now)
        }
        _ => RefreshReply { outcome: AuthOutcome::TokenInvalid, token: None },
    }
}

fn alice_claims(exp: i64) -> Claims {
    Claims { user_id: 1, username: "alice".to_string(), exp }
}

fn some_cookie() -> RefreshCookie {
    RefreshCookie {
        name: "refresh_token".to_string(),
        value: "00ff".to_string(),
        http_only: true,
        secure: false,
        same_site: SameSite::Lax,
        path: "/refresh".to_string(),
        max_age_days: 30,
    }
}

fn pending_alice() -> PendingSignin {
    PendingSignin {
        user_id: 1,
        username: "alice".to_string(),
        record: RefreshToken { user_id: 1, refresh_token: "stored".to_string() },
        cookie: some_cookie(),
    }
}

#[test]
fn sign_in_then_refresh_then_rotation_end_to_end() {
    let mut store = store_with_alice();

    let first = sign_in(&mut store, "alice", "pw123", 1000);
    assert_eq!(first.outcome, AuthOutcome::Authenticated(alice_claims(1100)));
    let access = first.token.unwrap();
    let secret = first.cookie.unwrap().value;
    assert_eq!(decode_jwt_at(&flow_config(), &access, 1000), Ok(JwtStatus::Valid(alice_claims(1100))));
    assert_eq!(secret.len(), 64);

    assert_eq!(decode_jwt_at(&flow_config(), &access, 5000), Ok(JwtStatus::Expired(alice_claims(1100))));
    let renewed = refresh(&store, &access, Some(&secret), 5000);
    assert_eq!(renewed.outcome, AuthOutcome::Authenticated(alice_claims(5100)));
    let fresh = renewed.token.unwrap();
    assert_ne!(fresh, access);
    assert_eq!(decode_jwt_at(&flow_config(), &fresh, 5000), Ok(JwtStatus::Valid(alice_claims(5100))));

    let again = sign_in(&mut store, "alice", "pw123", 6000);
    assert_eq!(again.outcome, AuthOutcome::Authenticated(alice_claims(6100)));
    let stale = refresh(&store, &access, Some(&secret), 6000);
    assert_eq!(stale, RefreshReply { outcome: AuthOutcome::RefreshInvalid, token: None });
    let current = again.cookie.unwrap().value;
    assert_eq!(
        refresh(&store, &access, Some(&current), 6000).outcome,
        AuthOutcome::Authenticated(alice_claims(6100))
    );
}

#[test]
fn sign_in_with_no_record_is_user_not_found() {
    let mut store = store_with_alice();
    let reply = sign_in(&mut store, "bob", "pw123", 1000);
    assert_eq!(reply, SigninReply { outcome: AuthOutcome::UserNotFound, token: None, cookie: None });
    assert!(store.refresh.is_empty());
}

#[test]
fn sign_in_with_two_records_is_a_conflict() {
    let mut store = store_with_alice();
    let args = UserArgs { username: "alice".to_string(), password: "pw123".to_string() };
    store.insert_user(2, create_begin(&args).unwrap());
    let reply = sign_in(&mut store, "alice", "pw123", 1000);
    assert_eq!(
        reply,
        SigninReply { outcome: AuthOutcome::MultipleAccountsConflict, token: None, cookie: None }
    );
    assert!(store.refresh.is_empty());
}

#[test]
fn sign_in_with_a_wrong_password_is_rejected() {
    let mut store = store_with_alice();
    let reply = sign_in(&mut store, "alice", "pw124", 1000);
    assert_eq!(reply, SigninReply { outcome: AuthOutcome::PasswordInvalid, token: None, cookie: None });
    assert!(store.refresh.is_empty());
}

#[test]
fn sign_in_against_a_malformed_stored_hash_is_rejected() {
    let users = vec![User { user_id: 1, username: "alice".to_string(), password: "pw123".to_string() }];
    assert_eq!(
        signin_begin(Ok(users), "pw123"),
        SigninStep::Rejected(AuthOutcome::PasswordInvalid)
    );
}

#[test]
fn sign_in_after_a_failed_lookup_is_an_internal_failure() {
    for error in [StoreError::Other, StoreError::RowNotFound, StoreError::Conflict] {
        assert_eq!(
            signin_begin(Err(error), "pw123"),
            SigninStep::Rejected(AuthOutcome::InternalFailure)
        );
    }
}

#[test]
fn sign_in_keeps_one_record_per_user() {
    let mut store = store_with_alice();
    sign_in(&mut store, "alice", "pw123", 1000);
    let first = store.entry(1).unwrap();
    sign_in(&mut store, "alice", "pw123", 2000);
    let second = store.entry(1).unwrap();
    assert_eq!(store.refresh.len(), 1);
    assert_ne!(first.refresh_token, second.refresh_token);
}

#[test]
fn select_account_wants_exactly_one_record() {
    let user = |id: i64| User { user_id: id, username: "u".to_string(), password: "h".to_string() };
    assert_eq!(select_account(&vec![]), Err(AuthOutcome::UserNotFound));
    assert_eq!(select_account(&vec![user(1)]), Ok(&user(1)));
    assert_eq!(select_account(&vec![user(1), user(2)]), Err(AuthOutcome::MultipleAccountsConflict));
    assert_eq!(
        select_account(&vec![user(1), user(2), user(3)]),
        Err(AuthOutcome::MultipleAccountsConflict)
    );
}

#[test]
fn check_password_goes_by_the_stored_hash() {
    let hash = PasswordHash::try_from("pw123").unwrap().value();
    let user = User { user_id: 1, username: "alice".to_string(), password: hash };
    assert!(check_password(&user, "pw123"));
    assert!(!check_password(&user, "PW123"));
    assert!(!check_password(&user, ""));
}

#[test]
fn bind_credential_keys_the_record_by_the_user() {
    let user = User { user_id: 9, username: "carol".to_string(), password: "h".to_string() };
    let step = bind_credential(&user, Ok((some_cookie(), "new hash".to_string())));
    assert_eq!(
        step,
        SigninStep::Pending(PendingSignin {
            user_id: 9,
            username: "carol".to_string(),
            record: RefreshToken { user_id: 9, refresh_token: "new hash".to_string() },
            cookie: some_cookie(),
        })
    );
}

#[test]
fn bind_credential_without_a_credential_is_an_internal_failure() {
    let user = User { user_id: 9, username: "carol".to_string(), password: "h".to_string() };
    for error in [RefreshError::RandomnessUnavailable, RefreshError::HashingFailure] {
        assert_eq!(
            bind_credential(&user, Err(error)),
            SigninStep::Rejected(AuthOutcome::InternalFailure)
        );
    }
}

#[test]
fn signin_finish_hands_out_token_and_cookie() {
    let reply = signin_finish(&flow_config(), pending_alice(), Ok(()), 1000);
    assert_eq!(reply.outcome, AuthOutcome::Authenticated(alice_claims(1100)));
    assert_eq!(reply.cookie, Some(some_cookie()));
    let token = reply.token.unwrap();
    assert_eq!(decode_jwt_at(&flow_config(), &token, 1099), Ok(JwtStatus::Valid(alice_claims(1100))));
}

#[test]
fn signin_finish_after_a_failed_store_is_an_internal_failure() {
    for error in [StoreError::Other, StoreError::Conflict, StoreError::RowNotFound] {
        assert_eq!(
            signin_finish(&flow_config(), pending_alice(), Err(error), 1000),
            SigninReply { outcome: AuthOutcome::InternalFailure, token: None, cookie: None }
        );
    }
}

#[test]
fn signin_finish_without_a_token_is_an_internal_failure() {
    assert_eq!(
        signin_finish(&flow_config(), pending_alice(), Ok(()), i64::MAX),
        SigninReply { outcome: AuthOutcome::InternalFailure, token: None, cookie: None }
    );
}

#[test]
fn signin_response_for_each_outcome() {
    let token = Some("t.o.k".to_string());
    assert_eq!(
        signin_response(&AuthOutcome::Authenticated(alice_claims(1)), &token),
        (Status::Success, "AuthToken: \"t.o.k\"".to_string())
    );
    assert_eq!(
        signin_response(&AuthOutcome::Authenticated(alice_claims(1)), &None),
        (Status::InternalServerError, INTERNAL.to_string())
    );
    assert_eq!(
        signin_response(&AuthOutcome::PasswordInvalid, &None),
        (Status::Unauthorized, "Password is incorrect".to_string())
    );
    assert_eq!(
        signin_response(&AuthOutcome::UserNotFound, &None),
        (Status::NotFound, "No account found by that username".to_string())
    );
    assert_eq!(
        signin_response(&AuthOutcome::MultipleAccountsConflict, &None),
        (
            Status::InternalServerError,
            "An error with this account has occured, please contact support".to_string()
        )
    );
    for outcome in [
        AuthOutcome::InternalFailure,
        AuthOutcome::TokenInvalid,
        AuthOutcome::RefreshInvalid,
        AuthOutcome::TokenExpiredButValid(alice_claims(1)),
    ] {
        assert_eq!(
            signin_response(&outcome, &token),
            (Status::InternalServerError, INTERNAL.to_string())
        );
    }
}

#[test]
fn refresh_without_a_record_is_user_not_found() {
    let user = RefreshUser { user_id: 1, username: "alice".to_string() };
    assert_eq!(
        refresh_decide(&flow_config(), user, Err(StoreError::RowNotFound), Some("00"), 1000),
        RefreshReply { outcome: AuthOutcome::UserNotFound, token: None }
    );
}

#[test]
fn refresh_after_a_failed_store_is_an_internal_failure() {
    for error in [StoreError::Other, StoreError::Conflict] {
        let user = RefreshUser { user_id: 1, username: "alice".to_string() };
        assert_eq!(
            refresh_decide(&flow_config(), user, Err(error), Some("00"), 1000),
            RefreshReply { outcome: AuthOutcome::InternalFailure, token: None }
        );
    }
}

#[test]
fn refresh_without_a_secret_is_refused() {
    let hash = PasswordHash::try_from("00ff").unwrap().value();
    let user = RefreshUser { user_id: 1, username: "alice".to_string() };
    let entry = Ok(RefreshToken { user_id: 1, refresh_token: hash });
    assert_eq!(
        refresh_decide(&flow_config(), user, entry, None, 1000),
        RefreshReply { outcome: AuthOutcome::RefreshInvalid, token: None }
    );
}

#[test]
fn refresh_goes_by_the_stored_hash() {
    let hash = PasswordHash::try_from("00ff").unwrap().value();
    let user = || RefreshUser { user_id: 1, username: "alice".to_string() };
    let entry = || Ok(RefreshToken { user_id: 1, refresh_token: hash.clone() });
    assert_eq!(
        refresh_decide(&flow_config(), user(), entry(), Some("00fe"), 1000),
        RefreshReply { outcome: AuthOutcome::RefreshInvalid, token: None }
    );
    assert_eq!(
        refresh_decide(&flow_config(), user(), entry(), Some(&hash), 1000),
        RefreshReply { outcome: AuthOutcome::RefreshInvalid, token: None }
    );
    let reply = refresh_decide(&flow_config(), user(), entry(), Some("00ff"), 1000);
    assert_eq!(reply.outcome, AuthOutcome::Authenticated(alice_claims(1100)));
    assert_eq!(
        decode_jwt_at(&flow_config(), &reply.token.unwrap(), 1000),
        Ok(JwtStatus::Valid(alice_claims(1100)))
    );
}

#[test]
fn refresh_against_a_malformed_stored_hash_is_refused() {
    let user = RefreshUser { user_id: 1, username: "alice".to_string() };
    let entry = Ok(RefreshToken { user_id: 1, refresh_token: "00ff".to_string() });
    assert_eq!(
        refresh_decide(&flow_config(), user, entry, Some("00ff"), 1000),
        RefreshReply { outcome: AuthOutcome::RefreshInvalid, token: None }
    );
}

#[test]
fn refresh_without_a_token_to_issue_is_an_internal_failure() {
    let hash = PasswordHash::try_from("00ff").unwrap().value();
    let user = RefreshUser { user_id: 1, username: "alice".to_string() };
    let entry = Ok(RefreshToken { user_id: 1, refresh_token: hash });
    assert_eq!(
        refresh_decide(&flow_config(), user, entry, Some("00ff"), i64::MAX),
        RefreshReply { outcome: AuthOutcome::InternalFailure, token: None }
    );
}

#[test]
fn refresh_with_a_forged_token_never_reaches_the_store() {
    let store = store_with_alice();
    let reply = refresh(&store, "a.b.c", Some("00ff"), 1000);
    assert_eq!(reply, RefreshReply { outcome: AuthOutcome::TokenInvalid, token: None });
}

#[test]
fn refresh_response_for_each_outcome() {
    let token = Some("t.o.k".to_string());
    assert_eq!(
        refresh_response(&AuthOutcome::Authenticated(alice_claims(1)), &token, true),
        (Status::Success, "AuthToken: \"t.o.k\"".to_string())
    );
    assert_eq!(
        refresh_response(&AuthOutcome::UserNotFound, &None, true),
        (Status::NotFound, "User doesn't exist".to_string())
    );
    assert_eq!(
        refresh_response(&AuthOutcome::RefreshInvalid, &None, true),
        (Status::Unauthorized, "Refresh token is invalid".to_string())
    );
    assert_eq!(
        refresh_response(&AuthOutcome::RefreshInvalid, &None, false),
        (Status::Unauthorized, "No valid refresh token".to_string())
    );
    for outcome in [
        AuthOutcome::InternalFailure,
        AuthOutcome::TokenInvalid,
        AuthOutcome::PasswordInvalid,
        AuthOutcome::MultipleAccountsConflict,
    ] {
        assert_eq!(
            refresh_response(&outcome, &None, true),
            (Status::InternalServerError, INTERNAL.to_string())
        );
    }
}

#[test]
fn create_begin_stores_a_hash_in_place_of_the_password() {
    let args = UserArgs { username: "dave".to_string(), password: "hunter2".to_string() };
    let record = create_begin(&args).unwrap();
    assert_eq!(record.username, "dave");
    assert_ne!(record.password, "hunter2");
    assert_eq!(PasswordHash::from(record.password).verify(&"hunter2".to_string()), Ok(true));
}

#[test]
fn create_finish_tells_a_taken_username_from_other_failures() {
    assert_eq!(create_finish(Ok(())), CreateOutcome::Created);
    assert_eq!(create_finish(Err(StoreError::Conflict)), CreateOutcome::AlreadyExists);
    assert_eq!(create_finish(Err(StoreError::Other)), CreateOutcome::InternalFailure);
    assert_eq!(create_finish(Err(StoreError::RowNotFound)), CreateOutcome::InternalFailure);
}

#[test]
fn create_response_for_each_outcome() {
    assert_eq!(
        create_response(CreateOutcome::Created),
        (Status::Created, "Account created successfully")
    );
    assert_eq!(create_response(CreateOutcome::AlreadyExists), (Status::Conflict, "User already exists"));
    assert_eq!(
        create_response(CreateOutcome::InternalFailure),
        (Status::InternalServerError, INTERNAL)
    );
}

#[test]
fn error_for_code_knows_the_unique_violation() {
    assert_eq!(error_for_code("23505"), StoreError::Conflict);
    assert_eq!(error_for_code("23503"), StoreError::Other);
    assert_eq!(error_for_code("235050"), StoreError::Other);
    assert_eq!(error_for_code(""), StoreError::Other);
}

#[test]
fn first_entry_takes_the_first_row() {
    let row = |hash: &str| RefreshToken { user_id: 1, refresh_token: hash.to_string() };
    assert_eq!(first_entry(vec![]), Err(StoreError::RowNotFound));
    assert_eq!(first_entry(vec![row("a")]), Ok(row("a")));
    assert_eq!(first_entry(vec![row("a"), row("b"), row("c")]), Ok(row("a")));
}
