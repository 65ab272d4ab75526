//! Decisions of the podcast handlers.

use crate::routes::{AppError, DbError};
use vstd::prelude::*;

verus! {

/// The answer to a podcast lookup that failed: "podcast not found" when no
/// row matched, an internal error with the failure's description otherwise.
pub fn not_found(e: DbError) -> (r: AppError)
    ensures
        e.row_not_found ==> (r matches AppError::NotFound(m) && m@ == "podcast not found"@),
        !e.row_not_found ==> (r matches AppError::Internal(m) && m@ == e.message@),
{
    if e.row_not_found {
        AppError::NotFound(String::from_str("podcast not found"))
    } else {
        AppError::Internal(e.message)
    }
}

/// The answer to a podcast deletion: 204 when a row was deleted,
/// "podcast not found" when none was.
pub fn delete_outcome(deleted: bool) -> (r: Result<u16, AppError>)
    ensures
        deleted ==> r == Ok::<u16, AppError>(204),
        !deleted ==> (r matches Err(AppError::NotFound(m)) && m@ == "podcast not found"@),
{
    if deleted {
        Ok(204)
    } else {
        Err(AppError::NotFound(String::from_str("podcast not found")))
    }
}

} // verus!
