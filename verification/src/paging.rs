use vstd::prelude::*;

verus! {

/// The quotient of `n` by `d`, rounded up.
pub open spec fn ceil_div(n: nat, d: nat) -> nat
    recommends
        d > 0,
{
    if n % d == 0 {
        n / d
    } else {
        n / d + 1
    }
}

/// The number of pages that `total_registers` rows fill: the quotient by the
/// page size, rounded up.
pub fn count_pages(total_registers: u64, page_size: u64) -> (pages: u64)
    requires
        page_size > 0,
    ensures
        pages == ceil_div(total_registers as nat, page_size as nat),
{
    let whole: u64 = total_registers / page_size;
    if total_registers % page_size == 0 {
        whole
    } else {
        assert(whole < u64::MAX) by (nonlinear_arith)
            requires
                whole == total_registers / page_size,
                total_registers % page_size != 0,
                page_size > 0,
                total_registers <= u64::MAX,
        ;
        whole + 1
    }
}

/// The page that a request for `page` is answered with. Pages are counted
/// from 1; a request for page 0 is answered with the first page.
pub open spec fn effective_page(page: u64) -> u64 {
    if page == 0 {
        1
    } else {
        page
    }
}

/// How many rows come before the first row of a page.
pub open spec fn rows_before(page: u64, page_size: u64) -> nat {
    ((effective_page(page) - 1) * page_size) as nat
}

/// The rows of an ordered result that fall on a page: those from position
/// `(page - 1) * page_size` up to, and without, position `page * page_size`,
/// as far as the result reaches.
pub open spec fn page_rows<A>(rows: Seq<A>, page: u64, page_size: u64) -> Seq<A> {
    let first = rows_before(page, page_size);
    if first >= rows.len() {
        Seq::empty()
    } else if first + page_size >= rows.len() {
        rows.subrange(first as int, rows.len() as int)
    } else {
        rows.subrange(first as int, first + page_size)
    }
}

/// The largest number that a statement can bind.
pub open spec fn largest_bound() -> nat {
    0x7fff_ffff_ffff_ffff
}

/// A count as a statement binds it: the count itself, or the largest number
/// that can be bound where the count is larger.
pub open spec fn bound_count(count: nat) -> i64 {
    if count > largest_bound() {
        0x7fff_ffff_ffff_ffff
    } else {
        count as i64
    }
}

/// The `LIMIT` that the statement for a page binds.
pub open spec fn sql_limit(page_size: u64) -> i64 {
    bound_count(page_size as nat)
}

/// The `OFFSET` that the statement for a page binds.
pub open spec fn sql_offset(page: u64, page_size: u64) -> i64 {
    bound_count(rows_before(page, page_size))
}

/// What `LIMIT limit OFFSET offset` keeps of an ordered result: it passes
/// over the first `offset` rows and keeps the next `limit`, as far as there
/// are any.
pub open spec fn limited<A>(rows: Seq<A>, limit: i64, offset: i64) -> Seq<A>
    recommends
        limit >= 0,
        offset >= 0,
{
    if offset >= rows.len() {
        Seq::empty()
    } else if offset + limit >= rows.len() {
        rows.subrange(offset as int, rows.len() as int)
    } else {
        rows.subrange(offset as int, offset + limit)
    }
}

/// The number of pages is the least number of pages that hold all rows: none
/// for no rows, and else the last page holds at least one row.
pub proof fn lemma_total_pages_bounds(total: nat, page_size: nat)
    requires
        page_size > 0,
    ensures
        ceil_div(total, page_size) == 0 <==> total == 0,
        total > 0 ==> (ceil_div(total, page_size) - 1) * page_size < total,
        total <= ceil_div(total, page_size) * page_size,
        ceil_div(total, page_size) <= total,
{
    let q = total / page_size;
    let r = total % page_size;
    assert(total == q * page_size + r && 0 <= r < page_size) by (nonlinear_arith)
        requires
            q == total / page_size,
            r == total % page_size,
            page_size > 0,
    ;
    assert((q + 1) * page_size == q * page_size + page_size) by (nonlinear_arith);
    assert((q - 1) * page_size == q * page_size - page_size) by (nonlinear_arith);
    assert(q <= q * page_size) by (nonlinear_arith)
        requires
            page_size >= 1,
            q >= 0,
    ;
    if r == 0 {
        if q == 0 {
            assert(q * page_size == 0) by (nonlinear_arith)
                requires
                    q == 0,
            ;
        }
    }
}

/// Every page before the last is full, the last page holds the rows that are
/// left, and a page beyond the last is empty. The rows of a page are those of
/// the ordered result from position `(page - 1) * page_size` on.
pub proof fn lemma_page_rows<A>(rows: Seq<A>, page: u64, page_size: u64)
    requires
        page >= 1,
        page_size > 0,
    ensures
        ({
            let pages = ceil_div(rows.len(), page_size as nat);
            let found = page_rows(rows, page, page_size);
            &&& page < pages ==> found.len() == page_size
            &&& page == pages ==> found.len() == rows.len() - (pages - 1) * page_size
            &&& page == pages ==> 1 <= found.len() <= page_size
            &&& page > pages ==> found.len() == 0
            &&& forall|j: int|
                0 <= j < found.len() ==> found[j] == rows[(page - 1) * page_size + j]
        }),
{
    let total = rows.len();
    let size = page_size as nat;
    let pages = ceil_div(total, size);
    let first = rows_before(page, page_size);
    lemma_total_pages_bounds(total, size);
    assert(first == (page - 1) * size);
    if page < pages {
        assert(page * size <= (pages - 1) * size) by (nonlinear_arith)
            requires
                page + 1 <= pages,
                size > 0,
        ;
        assert(page * size == (page - 1) * size + size) by (nonlinear_arith);
    } else if page == pages {
        assert(pages * size == (pages - 1) * size + size) by (nonlinear_arith);
    } else {
        assert(pages * size <= (page - 1) * size) by (nonlinear_arith)
            requires
                pages <= page - 1,
                size > 0,
        ;
    }
}

/// The statement for a page selects that page: on a result that is no longer
/// than the largest number a statement can bind, `LIMIT` and `OFFSET` with
/// the bound values keep exactly the rows of the page.
pub proof fn lemma_limit_and_offset_select_the_page<A>(rows: Seq<A>, page: u64, page_size: u64)
    requires
        rows.len() <= largest_bound(),
    ensures
        limited(rows, sql_limit(page_size), sql_offset(page, page_size)) == page_rows(
            rows,
            page,
            page_size,
        ),
        sql_limit(page_size) >= 0,
        sql_offset(page, page_size) >= 0,
{
}

} // verus!
