use vstd::prelude::*;

use crate::error::{BlogClientError, ClientErrorView};
use crate::models::Post;

verus! {

/// The page size used when a caller gives none (or one that is not positive).
pub const DEFAULT_PAGE_SIZE: i64 = 10;

/// The largest page size the service serves; a larger one is replaced by the default.
pub const MAX_PAGE_SIZE: i64 = 100;

/// The limit a listing uses: the caller's when it is positive, else the default.
pub open spec fn effective_limit(limit: Option<i64>) -> int {
    match limit {
        Some(l) => if l > 0 {
            l as int
        } else {
            DEFAULT_PAGE_SIZE as int
        },
        None => DEFAULT_PAGE_SIZE as int,
    }
}

/// The offset a listing uses: the caller's, else zero.
pub open spec fn effective_offset(offset: Option<i64>) -> int {
    match offset {
        Some(o) => o as int,
        None => 0,
    }
}

/// The one-based page that holds item `offset` when pages have `limit` items.
pub open spec fn page_number(offset: int, limit: int) -> int {
    offset / limit + 1
}

/// Whether a listing window can be written as an RPC page request: the
/// page size and the page number must fit the protocol's 32-bit fields.
pub open spec fn page_request_fits(limit: Option<i64>, offset: Option<i64>) -> bool {
    &&& effective_limit(limit) <= i32::MAX
    &&& i32::MIN <= page_number(effective_offset(offset), effective_limit(limit)) <= i32::MAX
}

/// Why a listing window cannot be written as an RPC page request.
pub open spec fn page_request_error() -> Seq<char> {
    "page out of range"@
}

/// A listing window in the shape of the RPC API.
#[derive(Clone, Copy, Debug, PartialEq, Eq, Structural)]
pub struct PageRequest {
    pub page: i32,
    pub page_size: i32,
}

/// Turns an HTTP-style window `(limit, offset)` into an RPC page request:
/// `page = floor(offset / limit) + 1`, `page_size = limit`, after the
/// defaults; it fails only when a field does not fit in 32 bits.
pub fn to_page_request(limit: Option<i64>, offset: Option<i64>) -> (r: Result<
    PageRequest,
    BlogClientError,
>)
    ensures
        r is Ok <==> page_request_fits(limit, offset),
        r matches Ok(p) ==> p.page == page_number(effective_offset(offset), effective_limit(limit))
            && p.page_size == effective_limit(limit),
        r matches Err(e) ==> e@ == ClientErrorView::InvalidRequest(page_request_error()),
{
    let lim: i64 = match limit {
        Some(l) => if l > 0 {
            l
        } else {
            DEFAULT_PAGE_SIZE
        },
        None => DEFAULT_PAGE_SIZE,
    };
    let off: i64 = match offset {
        Some(o) => o,
        None => 0,
    };
    // floor division, also for a negative offset
    let q: i64 = if off >= 0 {
        off / lim
    } else {
        -((-(off + 1)) / lim) - 1
    };
    proof {
        let o = off as int;
        let l = lim as int;
        if o < 0 {
            let m = -(o + 1);
            let a = m / l;
            let b = m % l;
            assert(m == l * a + b && 0 <= b < l) by (nonlinear_arith)
                requires
                    m >= 0,
                    l > 0,
                    a == m / l,
                    b == m % l,
            ;
            assert(o == l * (-a - 1) + (l - b - 1)) by (nonlinear_arith)
                requires
                    m == l * a + b,
                    m == -(o + 1),
            ;
            vstd::arithmetic::div_mod::lemma_fundamental_div_mod_converse(o, l, -a - 1, l - b - 1);
        }
    }
    assert(q == off / lim);
    if lim > i32::MAX as i64 || q >= i32::MAX as i64 || q < i32::MIN as i64 - 1 {
        return Err(BlogClientError::InvalidRequest(String::from_str("page out of range")));
    }
    Ok(PageRequest { page: (q + 1) as i32, page_size: lim as i32 })
}

/// Reshapes an RPC page of posts into the HTTP-shaped listing: the total
/// count becomes `total`, and the window echoes what the caller asked for.
pub fn posts_from_page(posts: Vec<Post>, total_count: i32, limit: Option<i64>, offset: Option<i64>) -> (r:
    crate::models::PostsResponse)
    ensures
        r.posts == posts,
        r.total == total_count as int,
        r.limit == effective_limit(limit),
        r.offset == effective_offset(offset),
{
    let lim: i64 = match limit {
        Some(l) => if l > 0 {
            l
        } else {
            DEFAULT_PAGE_SIZE
        },
        None => DEFAULT_PAGE_SIZE,
    };
    let off: i64 = match offset {
        Some(o) => o,
        None => 0,
    };
    crate::models::PostsResponse { posts, total: total_count as i64, limit: lim, offset: off }
}

/// The number of items the service puts in a page of the given size.
pub open spec fn served_limit(page_size: int) -> int {
    if 0 < page_size <= MAX_PAGE_SIZE {
        page_size
    } else {
        DEFAULT_PAGE_SIZE as int
    }
}

/// The position of the first item the service puts in the given page.
pub open spec fn served_offset(page: int, page_size: int) -> int {
    if page > 0 {
        (page - 1) * served_limit(page_size)
    } else {
        0
    }
}

/// The window `(limit, offset)` the service reads for an RPC page request.
pub fn list_window(page: i32, page_size: i32) -> (r: (i64, i64))
    ensures
        r.0 == served_limit(page_size as int),
        r.1 == served_offset(page as int, page_size as int),
{
    let limit: i64 = if 0 < page_size && page_size as i64 <= MAX_PAGE_SIZE {
        page_size as i64
    } else {
        DEFAULT_PAGE_SIZE
    };
    let offset: i64 = if page > 0 {
        assert(0 <= (page - 1) * limit <= i32::MAX * 100) by (nonlinear_arith)
            requires
                0 < page,
                0 < limit <= 100,
        ;
        (page as i64 - 1) * limit
    } else {
        0
    };
    (limit, offset)
}

/// The number of pages of `limit` items needed for `total` items.
pub open spec fn page_count_of(total: int, limit: int) -> int {
    (total + limit - 1) / limit
}

/// The number of pages an RPC listing reports: `total` items in pages of
/// `limit`, the last page possibly short.
pub fn page_count(total: i64, limit: i64) -> (r: i64)
    requires
        total >= 0,
        limit > 0,
    ensures
        r == page_count_of(total as int, limit as int),
        r * limit >= total,
        total > 0 ==> (r - 1) * limit < total,
{
    let q = total / limit;
    assert(total % limit != 0 ==> q < i64::MAX) by (nonlinear_arith)
        requires
            total >= 0,
            limit > 0,
            q == total / limit,
            total <= i64::MAX,
    ;
    let r = if total % limit != 0 {
        q + 1
    } else {
        q
    };
    proof {
        let t = total as int;
        let l = limit as int;
        let qq = q as int;
        let rem = t % l;
        vstd::arithmetic::div_mod::lemma_fundamental_div_mod(t, l);
        assert(t == l * qq + rem && 0 <= rem < l);
        if rem != 0 {
            assert(t + l - 1 == (qq + 1) * l + (rem - 1)) by (nonlinear_arith)
                requires
                    t == l * qq + rem,
            ;
            vstd::arithmetic::div_mod::lemma_fundamental_div_mod_converse(t + l - 1, l, qq + 1, rem - 1);
            assert((qq + 1) * l >= t && qq * l < t) by (nonlinear_arith)
                requires
                    t == l * qq + rem,
                    0 < rem < l,
            ;
        } else {
            assert(t + l - 1 == qq * l + (l - 1)) by (nonlinear_arith)
                requires
                    t == l * qq + rem,
                    rem == 0,
            ;
            vstd::arithmetic::div_mod::lemma_fundamental_div_mod_converse(t + l - 1, l, qq, l - 1);
            assert(qq * l >= t && (t > 0 ==> (qq - 1) * l < t)) by (nonlinear_arith)
                requires
                    t == l * qq + rem,
                    rem == 0,
                    l > 0,
            ;
        }
    }
    r
}

/// The items a store holding `items` returns for the window `(offset, limit)`.
pub open spec fn page_window<A>(items: Seq<A>, offset: int, limit: int) -> Seq<A> {
    let start = if offset < items.len() {
        offset
    } else {
        items.len() as int
    };
    let end = if offset + limit < items.len() {
        offset + limit
    } else {
        items.len() as int
    };
    items.subrange(start, end)
}

/// The first `n` pages of `limit` items each, one after the other.
pub open spec fn pages_concat<A>(items: Seq<A>, limit: int, n: nat) -> Seq<A>
    decreases n,
{
    if n == 0 {
        Seq::empty()
    } else {
        pages_concat(items, limit, (n - 1) as nat) + page_window(items, (n - 1) * limit, limit)
    }
}

/// `x`, or `len` when `x` lies beyond it.
spec fn clamp_to(x: int, len: int) -> int {
    if x < len {
        x
    } else {
        len
    }
}

proof fn lemma_pages_prefix<A>(items: Seq<A>, limit: int, n: nat)
    requires
        0 < limit,
    ensures
        pages_concat(items, limit, n) == items.subrange(0, clamp_to(n * limit, items.len() as int)),
    decreases n,
{
    let len = items.len() as int;
    if n == 0 {
        assert(n * limit == 0);
        assert(items.subrange(0, 0) =~= Seq::<A>::empty());
    } else {
        let m = (n - 1) as nat;
        lemma_pages_prefix(items, limit, m);
        let s = m * limit;
        assert(s + limit == n * limit) by (nonlinear_arith)
            requires
                m == n - 1,
                s == m * limit,
        ;
        assert(s >= 0) by (nonlinear_arith)
            requires
                0 < limit,
                m >= 0,
                s == m * limit,
        ;
        assert((n - 1) * limit == s);
        let a = clamp_to(s, len);
        let b = clamp_to(s + limit, len);
        assert(pages_concat(items, limit, m) == items.subrange(0, a));
        assert(page_window(items, s, limit) == items.subrange(a, b));
        assert(pages_concat(items, limit, n) == pages_concat(items, limit, m) + page_window(
            items,
            s,
            limit,
        ));
        assert(items.subrange(0, a) + items.subrange(a, b) =~= items.subrange(0, b));
    }
}

/// Paging through a listing with the RPC transport loses nothing and repeats
/// nothing: when the caller asks for offsets `0, limit, 2 * limit, ...`, the
/// service serves exactly those windows, and `n` consecutive pages that reach
/// the total put every item out once, in order.
pub proof fn lemma_consecutive_pages_cover<A>(items: Seq<A>, limit: int, n: nat)
    requires
        0 < limit <= MAX_PAGE_SIZE,
        items.len() <= n * limit,
    ensures
        forall|k: int|
            0 <= k < n ==> #[trigger] served_offset(page_number(k * limit, limit), limit) == k * limit,
        served_limit(limit) == limit,
        pages_concat(items, limit, n) == items,
{
    assert forall|k: int| 0 <= k < n implies #[trigger] served_offset(
        page_number(k * limit, limit),
        limit,
    ) == k * limit by {
        assert((k * limit) / limit == k) by (nonlinear_arith)
            requires
                0 < limit,
                0 <= k,
        ;
    }
    lemma_pages_prefix(items, limit, n);
    assert(items.subrange(0, items.len() as int) =~= items);
}

/// The round trip of a listing window over RPC. For a positive limit and
/// an offset that is not negative, `to_page_request` succeeds (when the page
/// fits in 32 bits) with page `floor(offset / limit) + 1` of `limit` items;
/// the page comes back through `posts_from_page` with exactly the limit and
/// offset asked for; and when the offset is a whole number of pages and the
/// size is one the service serves, the service reads that page as exactly
/// the window asked for.
pub proof fn lemma_page_round_trip(limit: i64, offset: i64)
    requires
        limit > 0,
        offset >= 0,
    ensures
        limit <= i32::MAX && offset / limit < i32::MAX ==> page_request_fits(Some(limit), Some(offset)),
        page_number(effective_offset(Some(offset)), effective_limit(Some(limit))) == offset / limit + 1,
        effective_limit(Some(limit)) == limit,
        effective_offset(Some(offset)) == offset,
        offset % limit == 0 && limit <= MAX_PAGE_SIZE ==> served_limit(limit as int) == limit
            && served_offset(page_number(offset as int, limit as int), limit as int) == offset,
{
    assert(offset / limit >= 0) by (nonlinear_arith)
        requires
            offset >= 0,
            limit > 0,
    ;
    if offset % limit == 0 && limit <= MAX_PAGE_SIZE {
        assert((offset / limit) * limit == offset) by (nonlinear_arith)
            requires
                offset % limit == 0,
                limit > 0,
        ;
    }
}

} // verus!
