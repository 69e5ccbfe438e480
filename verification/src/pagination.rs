//! Pages of results: the window a repository reads, the page a service
//! answers with, and how many pages a result set spans.

use vstd::prelude::*;
use vstd::string::*;

verus! {

/// Whether a character is white space in the sense of Unicode's
/// `White_Space` property.
pub open spec fn is_white_space(c: char) -> bool {
    let n = c as int;
    ||| 0x09 <= n <= 0x0D
    ||| n == 0x20
    ||| n == 0x85
    ||| n == 0xA0
    ||| n == 0x1680
    ||| 0x2000 <= n <= 0x200A
    ||| n == 0x2028
    ||| n == 0x2029
    ||| n == 0x202F
    ||| n == 0x205F
    ||| n == 0x3000
}

/// The text without its leading white space.
pub open spec fn trim_start_text(s: Seq<char>) -> Seq<char>
    decreases s.len(),
{
    if s.len() > 0 && is_white_space(s[0]) {
        trim_start_text(s.drop_first())
    } else {
        s
    }
}

/// The text without its trailing white space.
pub open spec fn trim_end_text(s: Seq<char>) -> Seq<char>
    decreases s.len(),
{
    if s.len() > 0 && is_white_space(s.last()) {
        trim_end_text(s.drop_last())
    } else {
        s
    }
}

/// The text that remains of `s` once leading and trailing white space is
/// removed.
pub open spec fn trimmed_text(s: Seq<char>) -> Seq<char> {
    trim_end_text(trim_start_text(s))
}

/// Std's `str::trim`: the text without its leading and trailing white
/// space, white space being what Unicode's `White_Space` property names.
#[verifier::external_body]
fn trim_str(s: &str) -> (r: &str)
    ensures
        r@ == trimmed_text(s@),
{
    s.trim()
}

/// Whether a search text is blank (nothing but white space).
pub open spec fn is_blank(s: Seq<char>) -> bool {
    trimmed_text(s).len() == 0
}

/// The search filter given to the database: none for a blank search, the
/// search text as given otherwise.
pub fn search_filter(search: &str) -> (r: Option<String>)
    ensures
        is_blank(search@) ==> r is None,
        !is_blank(search@) ==> (r matches Some(t) && t@ == search@),
{
    let t = trim_str(search);
    if t.is_empty() {
        None
    } else {
        Some(String::from_str(search))
    }
}

/// The rows a repository reads for one page.
#[derive(Debug, Clone)]
pub struct QueryWindow {
    /// At most this many rows.
    pub limit: i64,
    /// After skipping this many rows.
    pub offset: i64,
    /// Only rows matching this text, when there is one.
    pub search: Option<String>,
}

/// The number of rows before page `page` (pages count from one; pages
/// below one read as the first).
pub open spec fn page_offset(page: int, page_size: int) -> int {
    (if page - 1 > 0 { page - 1 } else { 0 }) * page_size
}

/// Whether the offset of a page can be computed in 32-bit arithmetic, as
/// the repositories compute it.
pub open spec fn window_fits(page: i32, page_size: i32) -> bool {
    &&& page > i32::MIN
    &&& i32::MIN <= page_offset(page as int, page_size as int) <= i32::MAX
}

/// The window of rows for a page request: `page_size` rows after those of
/// the earlier pages, filtered by the search text unless it is blank.
pub fn query_window(page: i32, page_size: i32, search: &str) -> (w: QueryWindow)
    requires
        window_fits(page, page_size),
    ensures
        w.limit == page_size,
        w.offset == page_offset(page as int, page_size as int),
        is_blank(search@) ==> w.search is None,
        !is_blank(search@) ==> (w.search matches Some(t) && t@ == search@),
{
    let before = page - 1;
    let skipped = if before > 0 { before } else { 0 };
    let offset = skipped * page_size;
    QueryWindow { limit: page_size as i64, offset: offset as i64, search: search_filter(search) }
}

/// The total count carried by the first row of a page, or zero when the
/// page is empty or the count is missing.
pub fn total_from_first_row(first_row_total: Option<Option<i64>>) -> (t: i64)
    ensures
        t == (match first_row_total {
            Some(Some(n)) => n,
            _ => 0,
        }),
{
    match first_row_total {
        Some(Some(n)) => n,
        _ => 0,
    }
}

/// The page a service answers with: the requested one, or the first when
/// the request names none.
pub fn effective_page(page: i32) -> (p: i32)
    ensures
        p == (if page > 0 { page } else { 1 }),
{
    if page > 0 {
        page
    } else {
        1
    }
}

/// The page size a service answers with: the requested one, or ten when
/// the request names none.
pub fn effective_page_size(page_size: i32) -> (s: i32)
    ensures
        s == (if page_size > 0 { page_size } else { 10 }),
{
    if page_size > 0 {
        page_size
    } else {
        10
    }
}

/// Integer division rounding toward zero, as Rust divides integers.
pub open spec fn trunc_div(a: int, b: int) -> int {
    let q = (if a >= 0 { a } else { -a }) / (if b >= 0 { b } else { -b });
    if (a >= 0) == (b > 0) {
        q
    } else {
        -q
    }
}

/// The number of pages a result set of `total` items spans with pages of
/// `page_size` items, as the services compute it: one more than
/// `(total - 1) / page_size`, rounding toward zero.
pub open spec fn page_count(total: int, page_size: int) -> int {
    trunc_div(total - 1, page_size) + 1
}

/// Whether the page count can be computed in 64-bit arithmetic without a
/// division by zero.
pub open spec fn page_count_fits(total: i64, page_size: i32) -> bool {
    &&& page_size != 0
    &&& total > i64::MIN
    &&& !(total - 1 == i64::MIN && page_size == -1)
    &&& page_count(total as int, page_size as int) <= i64::MAX
}

/// The number of pages a result set of `total` items spans.
pub fn total_pages(total: i64, page_size: i32) -> (n: i64)
    requires
        page_count_fits(total, page_size),
    ensures
        n == page_count(total as int, page_size as int),
{
    let a = total - 1;
    let b = page_size as i64;
    let q = if b > 0 {
        a / b
    } else {
        let d = a / (-b);
        assert(a == i64::MIN ==> -b != 1);
        -d
    };
    assert(q == trunc_div(a as int, page_size as int));
    q + 1
}

/// With a positive page size, the pages of a non-empty result set cover
/// all its items, and the last page is not empty.
pub proof fn lemma_pages_cover_items(total: int, page_size: int)
    requires
        total >= 1,
        page_size >= 1,
    ensures
        (page_count(total, page_size) - 1) * page_size < total,
        total <= page_count(total, page_size) * page_size,
{
    let q = (total - 1) / page_size;
    assert(page_count(total, page_size) == q + 1);
    assert(q * page_size <= total - 1) by (nonlinear_arith)
        requires
            q == (total - 1) / page_size,
            total >= 1,
            page_size >= 1,
    ;
    assert(total - 1 < (q + 1) * page_size) by (nonlinear_arith)
        requires
            q == (total - 1) / page_size,
            total >= 1,
            page_size >= 1,
    ;
}

/// An empty result set is answered as a single (empty) page when pages
/// hold more than one item, and as no page at all when they hold one.
pub proof fn lemma_empty_page_count(page_size: int)
    requires
        page_size >= 1,
    ensures
        page_size >= 2 ==> page_count(0, page_size) == 1,
        page_size == 1 ==> page_count(0, page_size) == 0,
{
    if page_size >= 2 {
        assert(1int / page_size == 0) by (nonlinear_arith)
            requires
                page_size >= 2,
        ;
    }
}

/// Consecutive pages are adjacent windows: page `p + 1` starts where page
/// `p` ends, and no page starts before the first row.
pub proof fn lemma_windows_adjacent(page: int, page_size: int)
    requires
        page >= 1,
        page_size >= 0,
    ensures
        page_offset(page + 1, page_size) == page_offset(page, page_size) + page_size,
        page_offset(page, page_size) >= 0,
{
    assert(page * page_size == (page - 1) * page_size + page_size) by (nonlinear_arith);
    assert((page - 1) * page_size >= 0) by (nonlinear_arith)
        requires
            page >= 1,
            page_size >= 0,
    ;
}

} // verus!
