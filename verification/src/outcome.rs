//! How the answers of the store become results of the data operations.

use vstd::prelude::*;
use vstd::string::*;
use crate::error::ApiError;

verus! {

/// The message of the conflict answered when an optimistic update finds no
/// row with the expected version.
pub open spec fn stale_version_message() -> Seq<char> {
    "task was modified by another user"@
}

/// A lookup by key: the row if the store found one, `NotFound` otherwise.
pub fn require_found<T>(row: Option<T>) -> (r: Result<T, ApiError>)
    ensures
        match row {
            Some(v) => r == Ok::<T, ApiError>(v),
            None => r == Err::<T, ApiError>(ApiError::NotFound),
        },
{
    match row {
        Some(v) => Ok(v),
        None => Err(ApiError::NotFound),
    }
}

/// A delete by key: success if it removed a row, `NotFound` if it removed none.
pub fn require_deleted(rows_affected: u64) -> (r: Result<(), ApiError>)
    ensures
        r is Ok <==> rows_affected != 0,
        r is Err ==> r == Err::<(), ApiError>(ApiError::NotFound),
{
    if rows_affected == 0 {
        Err(ApiError::NotFound)
    } else {
        Ok(())
    }
}

/// An optimistic update guarded by the version the client read: the updated
/// row if the store matched it, a `Conflict` if no row had that version.
pub fn require_current_version<T>(row: Option<T>) -> (r: Result<T, ApiError>)
    ensures
        match row {
            Some(v) => r == Ok::<T, ApiError>(v),
            None => r matches Err(ApiError::Conflict(m)) && m@ == stale_version_message(),
        },
{
    match row {
        Some(v) => Ok(v),
        None => Err(ApiError::Conflict(String::from_str("task was modified by another user"))),
    }
}

} // verus!
