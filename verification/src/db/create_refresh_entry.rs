//! The refresh record: one per user, replaced at every sign-in.

use vstd::prelude::*;

verus! {

/// A user's refresh record; `refresh_token` is the hash of the one secret that
/// is live for that user.
#[derive(Debug, Clone, PartialEq, Eq)]
pub struct RefreshToken {
    pub user_id: i64,
    pub refresh_token: String,
}

} // verus!
