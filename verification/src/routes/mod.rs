//! Decisions that the HTTP handlers make: the API's errors, the pagination
//! block of listings, and the checks that stand between a request and the
//! database.

pub mod link_report;
pub mod movie;
pub mod podcast;

use crate::models::podcast::PaginationMeta;
use crate::repo::{effective_page, effective_page_size, page_offset};
use vstd::prelude::*;

verus! {

/// An error answered to a request, with the message it carries.
#[derive(Debug)]
pub enum AppError {
    NotFound(String),
    BadRequest(String),
    Internal(String),
}

/// The HTTP status of an error.
pub open spec fn error_status(e: AppError) -> u16 {
    match e {
        AppError::NotFound(_) => 404,
        AppError::BadRequest(_) => 400,
        AppError::Internal(_) => 500,
    }
}

/// A failed database call: whether it found no row where one was expected,
/// and the database layer's description of the failure.
#[derive(Debug)]
pub struct DbError {
    pub row_not_found: bool,
    pub message: String,
}

impl AppError {
    /// The HTTP status of this error.
    pub fn status_code(&self) -> (s: u16)
        ensures
            s == error_status(*self),
    {
        match self {
            AppError::NotFound(_) => 404,
            AppError::BadRequest(_) => 400,
            AppError::Internal(_) => 500,
        }
    }

    /// A database failure met where no particular answer is due: an internal
    /// error with the failure's description.
    pub fn from_db(e: DbError) -> (r: AppError)
        ensures
            r matches AppError::Internal(m) && m@ == e.message@,
    {
        AppError::Internal(e.message)
    }
}

/// Integer division rounding toward zero, as Rust's `/` on signed integers.
pub open spec fn quotient_toward_zero(a: int, b: int) -> int {
    if a >= 0 {
        a / b
    } else {
        -((-a) / b)
    }
}

/// The number of pages of `size` rows that `total` rows fill; 0 without paging.
pub open spec fn total_pages(total: int, size: nat) -> int {
    if size > 0 {
        quotient_toward_zero(total + size - 1, size as int)
    } else {
        0
    }
}

/// `m` is the pagination block of a listing of `total` rows.
pub open spec fn is_pagination_of(
    m: PaginationMeta,
    page: Option<u32>,
    page_size: Option<u32>,
    total: i64,
) -> bool {
    &&& m.total_count == total
    &&& m.total_pages == total_pages(total as int, effective_page_size(page_size))
    &&& m.current_page == effective_page(page)
}

/// The 64-bit arithmetic of the page count does not overflow.
pub open spec fn page_count_fits(page_size: Option<u32>, total: i64) -> bool {
    effective_page_size(page_size) > 0 ==> total + effective_page_size(page_size) <= i64::MAX
}

/// Whether the page count of `total` rows can be computed for this page size.
pub fn page_count_in_range(page_size: Option<u32>, total: i64) -> (b: bool)
    ensures
        b == page_count_fits(page_size, total),
{
    match page_size {
        Some(s) => s == 0 || total <= i64::MAX - s as i64,
        None => true,
    }
}

/// The pagination block of a listing whose filters matched `total_count` rows.
pub fn pagination_meta(page: Option<u32>, page_size: Option<u32>, total_count: i64) -> (m:
    PaginationMeta)
    requires
        page_count_fits(page_size, total_count),
    ensures
        is_pagination_of(m, page, page_size, total_count),
{
    let size: i64 = match page_size {
        Some(s) => s as i64,
        None => 0,
    };
    let current_page: i64 = match page {
        Some(p) => if p >= 1 { p as i64 } else { 1 },
        None => 1,
    };
    let pages: i64 = if size > 0 {
        (total_count + size - 1) / size
    } else {
        0
    };
    PaginationMeta { total_count, total_pages: pages, current_page }
}


/// The page count of a listing is the least number of pages that hold all of
/// its rows: an empty listing has none, and otherwise
/// `(total_pages - 1) * size < total_count <= total_pages * size`.
pub proof fn law_total_pages_is_ceiling(total: i64, size: u32)
    requires
        total >= 0,
        size > 0,
    ensures
        total == 0 ==> total_pages(total as int, size as nat) == 0,
        total > 0 ==> (total_pages(total as int, size as nat) - 1) * size < total <= total_pages(
            total as int,
            size as nat,
        ) * size,
{
    let t = total as int;
    let s = size as int;
    let q = (t + s - 1) / s;
    let r = (t + s - 1) % s;
    assert(t + s - 1 == q * s + r && 0 <= r < s) by {
        vstd::arithmetic::div_mod::lemma_fundamental_div_mod(t + s - 1, s);
    }
    assert(total_pages(t, size as nat) == q);
    assert((q - 1) * s == q * s - s) by (nonlinear_arith);
    if t == 0 {
        assert(q == 0) by {
            vstd::arithmetic::div_mod::lemma_basic_div(s - 1, s);
        }
    }
}

/// The page that a listing fetches is the page its pagination block reports:
/// the block repeats the total, its current page is the requested page, or 1
/// when none or page 0 is requested, and the rows skipped before the fetched
/// page are `(current_page - 1) * page_size`.
pub proof fn law_page_window_matches_meta(
    m: PaginationMeta,
    page: Option<u32>,
    page_size: Option<u32>,
    total: i64,
)
    requires
        is_pagination_of(m, page, page_size, total),
    ensures
        m.total_count == total,
        m.current_page >= 1,
        page is Some && page.unwrap() >= 1 ==> m.current_page == page.unwrap(),
        page is None || page == Some(0u32) ==> m.current_page == 1,
        page_offset(page, page_size) == (m.current_page - 1) * (match page_size {
            Some(s) => s as int,
            None => 0,
        }),
{
}

/// The windows of successive pages tile a listing of `total` rows: row `row`
/// (counted from 0 in the listing's order) lies in exactly one page `k`, with
/// `1 <= k <= total_pages`, the page whose window is
/// `(k - 1) * size <= row < k * size`; and every page after the last one
/// starts at or beyond the end of the listing, so it is empty.
pub proof fn law_page_windows_tile_rows(total: i64, size: u32, row: int, j: int)
    requires
        total >= 0,
        size > 0,
    ensures
        0 <= row < total ==> {
            let k = row / (size as int) + 1;
            &&& 1 <= k <= total_pages(total as int, size as nat)
            &&& (k - 1) * size <= row < k * size
            &&& (1 <= j && (j - 1) * size <= row < j * size) ==> j == k
        },
        j > total_pages(total as int, size as nat) ==> (j - 1) * size >= total,
{
    let s = size as int;
    let t = total as int;
    law_total_pages_is_ceiling(total, size);
    let tp = total_pages(t, size as nat);
    if 0 <= row < t {
        let q = row / s;
        let r = row % s;
        assert(row == q * s + r && 0 <= r < s) by {
            vstd::arithmetic::div_mod::lemma_fundamental_div_mod(row, s);
        }
        assert((q + 1 - 1) * s == q * s);
        assert((q + 1) * s == q * s + s) by (nonlinear_arith);
        assert(q <= (t - 1) / s) by {
            vstd::arithmetic::div_mod::lemma_div_is_ordered(row, t - 1, s);
        }
        assert(1 + (t - 1) / s == (s + (t - 1)) / s) by {
            vstd::arithmetic::div_mod::lemma_div_plus_one(t - 1, s);
        }
        assert(tp == (t + s - 1) / s);
        if 1 <= j && (j - 1) * s <= row < j * s {
            assert(j * s == (j - 1) * s + s) by (nonlinear_arith);
            assert(row == (j - 1) * s + (row - (j - 1) * s));
            vstd::arithmetic::div_mod::lemma_fundamental_div_mod_converse_div(
                row,
                s,
                j - 1,
                row - (j - 1) * s,
            );
        }
    }
    if j > tp {
        if t > 0 {
            assert((j - 1) * s >= tp * s) by (nonlinear_arith)
                requires
                    j - 1 >= tp,
                    s > 0,
            ;
        } else {
            assert(tp == 0);
            assert((j - 1) * s >= 0) by (nonlinear_arith)
                requires
                    j - 1 >= 0,
                    s > 0,
            ;
        }
    }
}

} // verus!
