//! Page selection for list queries and the page count of a result.

use vstd::prelude::*;

verus! {

/// Number of pages of `limit` items that `total` items fill: the ceiling of
/// `total / limit`. A limit below one counts as one, the smallest page a list
/// query ever uses.
pub open spec fn pages_for(total: int, limit: int) -> int {
    let l = if limit < 1 {
        1
    } else {
        limit
    };
    (total + l - 1) / l
}

/// The page size of a query: `limit` (or `default_limit` when absent), at
/// most `max_limit`, at least one.
pub open spec fn limit_of(limit: Option<i64>, default_limit: i64, max_limit: i64) -> i64 {
    let l = match limit {
        Some(l) => l,
        None => default_limit,
    };
    let capped = if l > max_limit {
        max_limit
    } else {
        l
    };
    if capped < 1 {
        1
    } else {
        capped
    }
}

/// The page number of a query: `page`, or 1 when absent, at least 1.
pub open spec fn page_of_query(page: Option<i64>) -> i64 {
    match page {
        Some(p) => if p < 1 {
            1
        } else {
            p
        },
        None => 1,
    }
}

/// Page number, page size and number of items to skip of a list query.
#[derive(Clone, Copy, Debug, PartialEq, Eq, Structural)]
pub struct Pagination {
    pub page: i64,
    pub limit: i64,
    pub skip: u128,
}

/// Page, size and count of a returned page.
#[derive(Clone, Copy, Debug, PartialEq, Eq, Structural)]
pub struct PageInfo {
    pub page: i64,
    pub limit: i64,
    pub total: u64,
    pub pages: u64,
}

impl Pagination {
    /// Reads `page` (default 1, at least 1) and `limit` (default
    /// `default_limit`, at most `max_limit`, at least 1) of a list query.
    pub fn resolve(page: Option<i64>, limit: Option<i64>, default_limit: i64, max_limit: i64) -> (r: Pagination)
        ensures
            r.page == page_of_query(page),
            r.limit == limit_of(limit, default_limit, max_limit),
            r.skip == (r.page - 1) * r.limit,
    {
        let p: i64 = match page {
            Some(p) => if p < 1 {
                1
            } else {
                p
            },
            None => 1,
        };
        let l0: i64 = match limit {
            Some(l) => l,
            None => default_limit,
        };
        let l1: i64 = if l0 > max_limit {
            max_limit
        } else {
            l0
        };
        let l: i64 = if l1 < 1 {
            1
        } else {
            l1
        };
        let pm: u128 = (p - 1) as u128;
        assert(pm * (l as u128) <= 0x8000_0000_0000_0000 * 0x8000_0000_0000_0000) by (nonlinear_arith)
            requires
                pm <= 0x8000_0000_0000_0000,
                1 <= l <= 0x7fff_ffff_ffff_ffff,
        ;
        Pagination { page: p, limit: l, skip: pm * (l as u128) }
    }

    /// Page information for a result of `total` items.
    pub fn info(&self, total: u64) -> (r: PageInfo)
        ensures
            r.page == self.page,
            r.limit == self.limit,
            r.total == total,
            r.pages == pages_for(total as int, self.limit as int),
    {
        PageInfo { page: self.page, limit: self.limit, total, pages: page_count(total, self.limit) }
    }
}

/// Number of pages of `limit` items that `total` items fill.
pub fn page_count(total: u64, limit: i64) -> (r: u64)
    ensures
        r == pages_for(total as int, limit as int),
{
    let l: u128 = if limit < 1 {
        1
    } else {
        limit as u128
    };
    let t = total as u128;
    let q = (t + l - 1) / l;
    assert(q <= t) by (nonlinear_arith)
        requires
            q as int == (t as int + l as int - 1) / (l as int),
            l >= 1,
    ;
    q as u64
}

} // verus!
