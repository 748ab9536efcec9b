//! The records that the credential store keeps, and what its answers mean.

use vstd::prelude::*;

pub mod create_refresh_entry;
pub mod create_user;
pub mod get_refresh_entry;
pub mod user;

verus! {

/// Why the store could not do what it was asked.
#[derive(Clone, Copy, Debug, PartialEq, Eq, Structural)]
pub enum StoreError {
    /// No row matched.
    RowNotFound,
    /// A unique constraint stood against the write.
    Conflict,
    /// Anything else.
    Other,
}

} // verus!
