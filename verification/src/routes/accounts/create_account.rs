//! Account creation: the password is hashed before anything reaches the
//! store, and a username that is taken is told from other failures.

use crate::crypto::hash::{accepts, PasswordHash};
use crate::db::user::UserArgs;
use crate::db::StoreError;
use crate::routes::outcome::{internal_error_text, Status};
use vstd::prelude::*;

verus! {

/// How the creation of an account ended.
#[derive(Clone, Copy, Debug, PartialEq, Eq, Structural)]
pub enum CreateOutcome {
    Created,
    AlreadyExists,
    InternalFailure,
}

/// Prepares the record of a new user: the username as given, and in place of
/// the password a fresh hash that verifies against it. Without a hash the
/// creation ends as an internal failure and nothing reaches the store.
pub fn create_begin(user: &UserArgs) -> (r: Result<UserArgs, CreateOutcome>)
    ensures
        r matches Ok(record) ==> record.username@ == user.username@ && accepts(
            record.password@,
            user.password@,
        ),
        r matches Err(outcome) ==> outcome == CreateOutcome::InternalFailure,
{
    match PasswordHash::try_from(user.password.as_str()) {
        Ok(hashed) => Ok(UserArgs { username: user.username.clone(), password: hashed.value() }),
        Err(_) => Err(CreateOutcome::InternalFailure),
    }
}

/// The outcome of a creation, given how the store answered the insert.
pub fn create_finish(written: Result<(), StoreError>) -> (outcome: CreateOutcome)
    ensures
        outcome == match written {
            Ok(_) => CreateOutcome::Created,
            Err(StoreError::Conflict) => CreateOutcome::AlreadyExists,
            Err(_) => CreateOutcome::InternalFailure,
        },
{
    match written {
        Ok(_) => CreateOutcome::Created,
        Err(StoreError::Conflict) => CreateOutcome::AlreadyExists,
        Err(_) => CreateOutcome::InternalFailure,
    }
}

/// The status and body that answer a creation.
pub open spec fn create_answer(outcome: CreateOutcome) -> (Status, Seq<char>) {
    match outcome {
        CreateOutcome::Created => (Status::Created, "Account created successfully"@),
        CreateOutcome::AlreadyExists => (Status::Conflict, "User already exists"@),
        CreateOutcome::InternalFailure => (Status::InternalServerError, internal_error_text()),
    }
}

/// Maps the outcome of a creation to the status and body for the client.
pub fn create_response(outcome: CreateOutcome) -> (r: (Status, &'static str))
    ensures
        r.0 == create_answer(outcome).0,
        r.1@ == create_answer(outcome).1,
{
    match outcome {
        CreateOutcome::Created => (Status::Created, "Account created successfully"),
        CreateOutcome::AlreadyExists => (Status::Conflict, "User already exists"),
        CreateOutcome::InternalFailure => (
            Status::InternalServerError,
            "An internal server error has occured",
        ),
    }
}

} // verus!
