//! Response envelopes: the pagination envelope the search endpoint returns
//! and the not-found handling of the fetch-by-id endpoint.

use vstd::prelude::*;

verus! {

/// The number of results a page holds; the search endpoint fixes it.
pub const PAGE_LIMIT: usize = 24;

/// A page of search results: items plus pagination metadata.
pub struct LibraryPage<T> {
    pub archives: Vec<T>,
    pub page: usize,
    pub limit: usize,
    pub total: usize,
}

/// How a request fails.
#[derive(Clone, Copy, Debug, PartialEq, Eq, Structural)]
pub enum ApiError {
    /// No record with the requested identifier exists.
    NotFound,
    /// The data-access layer failed.
    Internal,
}

/// Wrap search results in the pagination envelope; the page size is fixed
/// at `PAGE_LIMIT`.
pub fn library_page<T>(archives: Vec<T>, page: usize, total: usize) -> (r: LibraryPage<T>)
    ensures
        r.archives == archives,
        r.page == page,
        r.limit == PAGE_LIMIT,
        r.total == total,
{
    LibraryPage { archives, page, limit: PAGE_LIMIT, total }
}

/// Turn the result of a fetch-by-id into the endpoint's response: the
/// record when one exists, a not-found error when none does.
pub fn archive_response<T>(found: Option<T>) -> (r: Result<T, ApiError>)
    ensures
        match found {
            Some(a) => r == Ok::<T, ApiError>(a),
            None => r == Err::<T, ApiError>(ApiError::NotFound),
        },
{
    match found {
        Some(a) => Ok(a),
        None => Err(ApiError::NotFound),
    }
}

} // verus!
