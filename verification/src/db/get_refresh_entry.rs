//! Picking the refresh record out of the rows that a lookup returned.

use crate::db::create_refresh_entry::RefreshToken;
use crate::db::StoreError;
use vstd::prelude::*;

verus! {

/// The first of the rows, or `RowNotFound` where there is none.
pub fn first_entry(rows: Vec<RefreshToken>) -> (r: Result<RefreshToken, StoreError>)
    ensures
        rows.len() == 0 ==> (r matches Err(e) && e == StoreError::RowNotFound),
        rows.len() > 0 ==> (r matches Ok(entry) && entry == rows[0]),
{
    let mut rows = rows;
    if rows.len() == 0 {
        Err(StoreError::RowNotFound)
    } else {
        Ok(rows.swap_remove(0))
    }
}

} // verus!
