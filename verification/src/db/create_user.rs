//! Telling a unique-constraint conflict from other failures of a write.

use crate::db::StoreError;
use vstd::prelude::*;

verus! {

/// The SQLSTATE code of a unique-constraint violation.
pub open spec fn conflict_code() -> Seq<char> {
    "23505"@
}

/// The kind of failure that a database error with the given SQLSTATE code is:
/// a conflict for the code of a unique-constraint violation, else unspecific.
pub fn error_for_code(code: &str) -> (e: StoreError)
    ensures
        e == if code@ == conflict_code() {
            StoreError::Conflict
        } else {
            StoreError::Other
        },
{
    if code.to_owned() == "23505".to_owned() {
        StoreError::Conflict
    } else {
        StoreError::Other
    }
}

} // verus!
