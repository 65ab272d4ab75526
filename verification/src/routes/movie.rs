//! Decisions of the movie handlers.

use crate::models::movie::BulkDeleteInput;
use crate::routes::{AppError, DbError};
use vstd::prelude::*;

verus! {

/// The answer to a movie lookup that failed: "movie not found" when no row
/// matched, an internal error with the failure's description otherwise.
pub fn not_found(e: DbError) -> (r: AppError)
    ensures
        e.row_not_found ==> (r matches AppError::NotFound(m) && m@ == "movie not found"@),
        !e.row_not_found ==> (r matches AppError::Internal(m) && m@ == e.message@),
{
    if e.row_not_found {
        AppError::NotFound(String::from_str("movie not found"))
    } else {
        AppError::Internal(e.message)
    }
}

/// The answer to a movie deletion: 204 when a row was deleted,
/// "movie not found" when none was.
pub fn delete_outcome(deleted: bool) -> (r: Result<u16, AppError>)
    ensures
        deleted ==> r == Ok::<u16, AppError>(204),
        !deleted ==> (r matches Err(AppError::NotFound(m)) && m@ == "movie not found"@),
{
    if deleted {
        Ok(204)
    } else {
        Err(AppError::NotFound(String::from_str("movie not found")))
    }
}

/// A bulk deletion must name at least one movie.
pub fn check_bulk_delete(input: &BulkDeleteInput) -> (r: Result<(), AppError>)
    ensures
        input.ids@.len() > 0 <==> r is Ok,
        input.ids@.len() == 0 ==> (r matches Err(AppError::BadRequest(m)) && m@
            == "ids must not be empty"@),
{
    if input.ids.len() == 0 {
        Err(AppError::BadRequest(String::from_str("ids must not be empty")))
    } else {
        Ok(())
    }
}

} // verus!
