//! Paging through lists.

use vstd::prelude::*;

verus! {

/// A step of the pager.
#[derive(Debug, Clone, Copy, PartialEq, Eq)]
pub enum Navigation {
    First,
    Last,
    Previous,
    Next,
    Page(usize),
}

/// The offset of the first entry of the last page, when `total` entries are shown `limit`
/// to a page; an unknown total counts as zero.
pub open spec fn last_page_offset(total: Option<usize>, limit: nat) -> nat {
    let t: nat = match total {
        Some(t) => t as nat,
        None => 0,
    };
    let last: nat = if t == 0 { 0 } else { (t - 1) as nat };
    (last / limit) * limit
}

/// The offset the pager moves to from `offset`, showing `limit` entries to a page.
pub open spec fn navigated_offset(page: Navigation, offset: nat, limit: nat, total: Option<usize>) -> int {
    match page {
        Navigation::First => 0,
        Navigation::Last => last_page_offset(total, limit) as int,
        Navigation::Previous => offset - limit,
        Navigation::Next => (offset + limit) as int,
        Navigation::Page(n) => (n * limit) as int,
    }
}

/// The offset of the first entry to show after the step `page`, from the current `offset`,
/// showing `limit` entries to a page out of `total_entries` (when known).
pub fn navigate(page: Navigation, offset: usize, limit: usize, total_entries: Option<usize>) -> (res: usize)
    requires
        page is Last ==> limit > 0,
        page is Previous ==> offset >= limit,
        page is Next ==> offset + limit <= usize::MAX,
        page matches Navigation::Page(n) ==> n * limit <= usize::MAX,
    ensures
        res == navigated_offset(page, offset as nat, limit as nat, total_entries),
{
    match page {
        Navigation::First => 0,
        Navigation::Last => {
            let total = match total_entries {
                Some(t) => t,
                None => 0,
            };
            let last = total.saturating_sub(1);
            let pages = last / limit;
            assert(pages * limit <= last) by (nonlinear_arith)
                requires
                    pages == last / limit,
                    limit > 0,
            ;
            pages * limit
        },
        Navigation::Previous => offset - limit,
        Navigation::Next => offset + limit,
        Navigation::Page(n) => n * limit,
    }
}

} // verus!
