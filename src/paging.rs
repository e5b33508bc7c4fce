use vstd::prelude::*;

verus! {

/// Number of records on one page.
pub const PAGE_SIZE: u64 = 25;

/// The slice of an ordered scan that one page covers.
#[derive(Clone, Copy, Debug, PartialEq, Eq)]
pub struct PageWindow {
    pub skip: u64,
    pub limit: u64,
}

/// How many records precede page `page`, saturated at the largest `u64`: a
/// page that far out covers no record.
pub open spec fn skip_of(page: u64) -> u64 {
    if page * PAGE_SIZE <= u64::MAX {
        (page * PAGE_SIZE) as u64
    } else {
        u64::MAX
    }
}

impl PageWindow {
    /// The window of the zero-based page `page`.
    pub fn of_page(page: u64) -> (r: PageWindow)
        ensures
            r.skip == skip_of(page),
            r.limit == PAGE_SIZE,
    {
        let skip: u64 = if page <= u64::MAX / PAGE_SIZE {
            page * PAGE_SIZE
        } else {
            u64::MAX
        };
        PageWindow { skip, limit: PAGE_SIZE }
    }
}

} // verus!
