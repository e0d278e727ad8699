//! The page and the limit of a listing request.

use vstd::prelude::*;

verus! {

/// The page that is listed where the request names none.
pub const DEFAULT_PAGE: usize = 1;

/// The number of entries on a page where the request names none.
pub const DEFAULT_LIMIT: usize = 10;

/// The page number as the store takes it: the low 32 bits of the page asked
/// for.
pub open spec fn page_number(page: usize) -> u32 {
    (page as int % 0x1_0000_0000) as u32
}

/// Fills in what a listing request left open: the first page, and ten
/// entries a page. The page number is cut to 32 bits for the store.
pub fn page_window(page: Option<usize>, limit: Option<usize>) -> (window: (u32, usize))
    ensures
        window.0 == page_number(
            match page {
                Some(asked) => asked,
                None => DEFAULT_PAGE,
            },
        ),
        window.1 == match limit {
            Some(asked) => asked,
            None => DEFAULT_LIMIT,
        },
{
    let page: usize = match page {
        Some(asked) => asked,
        None => DEFAULT_PAGE,
    };
    let limit: usize = match limit {
        Some(asked) => asked,
        None => DEFAULT_LIMIT,
    };
    let low: u64 = page as u64 % 0x1_0000_0000;
    (low as u32, limit)
}

} // verus!
