//! Long lists in pages: how many there are, which one is shown, and what
//! stands on it.

use vstd::prelude::*;

verus! {

/// How many pages it takes to show `total` entries. An empty list has one
/// empty page.
pub open spec fn pages_of(total: int, per_page: int) -> int
    recommends
        per_page > 0,
{
    if total > 0 {
        (total + per_page - 1) / per_page
    } else {
        1
    }
}

/// How many pages it takes to show `total` entries.
pub fn page_count(total: i64, per_page: i64) -> (r: i64)
    requires
        per_page > 0,
        total + per_page <= i64::MAX,
    ensures
        r == pages_of(total as int, per_page as int),
        r >= 1,
{
    if total > 0 {
        proof {
            pages_are_counted(total as int, per_page as int);
        }
        (total + per_page - 1) / per_page
    } else {
        1
    }
}

/// The page that is shown when `asked` is asked for: the nearest one that
/// there is, and the first one when none is asked for.
pub open spec fn page_shown(asked: Option<i64>, pages: int) -> int {
    match asked {
        Some(page) => if page < 0 {
            0
        } else if page > pages - 1 {
            pages - 1
        } else {
            page as int
        },
        None => 0,
    }
}

/// The page that is shown when `asked` is asked for.
pub fn shown_page(asked: Option<i64>, pages: i64) -> (r: i64)
    requires
        pages >= 1,
    ensures
        r == page_shown(asked, pages as int),
        0 <= r < pages,
{
    match asked {
        Some(page) => if page < 0 {
            0
        } else if page > pages - 1 {
            pages - 1
        } else {
            page
        },
        None => 0,
    }
}

/// Whether the entry at place `i` of a list stands on a page.
pub open spec fn stands_on(i: int, page: int, per_page: int) -> bool {
    page * per_page <= i < (page + 1) * per_page
}

/// The pages hold all entries, and one page less would not.
pub proof fn pages_are_counted(total: int, per_page: int)
    requires
        per_page > 0,
    ensures
        pages_of(total, per_page) >= 1,
        total <= pages_of(total, per_page) * per_page,
        total > 0 ==> (pages_of(total, per_page) - 1) * per_page < total,
{
    if total > 0 {
        let n = total + per_page - 1;
        let q = n / per_page;
        vstd::arithmetic::div_mod::lemma_fundamental_div_mod(n, per_page);
        assert(0 <= n % per_page < per_page) by (nonlinear_arith)
            requires
                per_page > 0,
        ;
        assert(q * per_page == n - n % per_page) by (nonlinear_arith)
            requires
                n == per_page * q + n % per_page,
        ;
        assert((q - 1) * per_page == q * per_page - per_page) by (nonlinear_arith);
        assert(q >= 1) by (nonlinear_arith)
            requires
                q * per_page > 0,
                per_page > 0,
        ;
    } else {
        assert(total <= 1 * per_page);
    }
}

/// Every entry of a list stands on exactly one of its pages.
pub proof fn every_entry_stands_on_one_page(i: int, total: int, per_page: int) -> (page: int)
    requires
        per_page > 0,
        0 <= i < total,
    ensures
        0 <= page < pages_of(total, per_page),
        stands_on(i, page, per_page),
        forall|other: int| #[trigger] stands_on(i, other, per_page) ==> other == page,
{
    let page = i / per_page;
    vstd::arithmetic::div_mod::lemma_fundamental_div_mod(i, per_page);
    let rest = i % per_page;
    assert(0 <= rest < per_page && page >= 0) by (nonlinear_arith)
        requires
            per_page > 0,
            i >= 0,
            rest == i % per_page,
            page == i / per_page,
    ;
    assert(page * per_page <= i < (page + 1) * per_page) by (nonlinear_arith)
        requires
            i == per_page * page + rest,
            0 <= rest < per_page,
    ;
    pages_are_counted(total, per_page);
    let pages = pages_of(total, per_page);
    assert(page < pages) by (nonlinear_arith)
        requires
            page * per_page <= i,
            i < pages * per_page,
            per_page > 0,
    ;
    assert forall|other: int| #[trigger] stands_on(i, other, per_page) implies other == page by {
        assert(other == page) by (nonlinear_arith)
            requires
                other * per_page <= i < (other + 1) * per_page,
                page * per_page <= i < (page + 1) * per_page,
                per_page > 0,
        ;
    }
    page
}

/// Whatever page is asked for, the one that is shown exists, and a page that
/// exists is shown as asked.
pub proof fn the_shown_page_exists(asked: Option<i64>, total: int, per_page: int)
    requires
        per_page > 0,
    ensures
        0 <= page_shown(asked, pages_of(total, per_page)) < pages_of(total, per_page),
        asked matches Some(page) ==> 0 <= page < pages_of(total, per_page) ==> page_shown(
            asked,
            pages_of(total, per_page),
        ) == page,
{
    pages_are_counted(total, per_page);
}

/// Nothing asked for shows the first page, a page before the first one shows
/// the first, and one behind the last shows the last.
pub proof fn the_nearest_page_is_shown(asked: i64, pages: int)
    requires
        pages >= 1,
    ensures
        page_shown(None, pages) == 0,
        asked <= 0 ==> page_shown(Some(asked), pages) == 0,
        asked >= pages - 1 ==> page_shown(Some(asked), pages) == pages - 1,
        0 <= asked < pages ==> page_shown(Some(asked), pages) == asked,
{
}

/// An empty list has one page, as many entries as fit have one, and every
/// full page more adds one.
pub proof fn full_pages_add_up(total: int, per_page: int)
    requires
        per_page > 0,
    ensures
        total <= per_page ==> pages_of(total, per_page) == 1,
        total > 0 ==> pages_of(total + per_page, per_page) == pages_of(total, per_page) + 1,
{
    pages_are_counted(total, per_page);
    pages_are_counted(total + per_page, per_page);
    let p = pages_of(total, per_page);
    if 0 < total <= per_page {
        assert(p == 1) by (nonlinear_arith)
            requires
                p >= 1,
                (p - 1) * per_page < total,
                total <= per_page,
                per_page > 0,
        ;
    }
    if total > 0 {
        let q = pages_of(total + per_page, per_page);
        assert(q == p + 1) by (nonlinear_arith)
            requires
                total <= p * per_page,
                (p - 1) * per_page < total,
                total + per_page <= q * per_page,
                (q - 1) * per_page < total + per_page,
                per_page > 0,
        ;
    }
}

} // verus!
