//! Paginated listings of posts: from a requested page number to the window
//! the store is asked for, and from the rows it returns to one page of
//! enriched view records.
use vstd::prelude::*;
use crate::models::{Post, PostMediaWithItem, Tag, Timestamp};
use crate::privacy::{can_view_spec, can_view_visibility, opt_text};
use crate::text::{preview_spec, preview_text};

verus! {

/// Posts on one page of every listing.
pub const PER_PAGE: i64 = 10;

/// The page asked for: pages count from 1, and an absent or non-positive
/// page number means the first page.
pub open spec fn page_number(page: Option<i64>) -> int {
    match page {
        Some(p) => if p >= 1 { p as int } else { 1 },
        None => 1,
    }
}

/// Whether the window of that page can be expressed in 64-bit arithmetic.
pub open spec fn window_fits(page: Option<i64>, per_page: i64) -> bool {
    &&& page_number(page) < i64::MAX
    &&& (page_number(page) - 1) * per_page <= i64::MAX
}

/// The rows of one page: `per_page` of them from `offset`, and one more
/// fetched so as to learn whether a next page exists.
#[derive(Clone, Copy, Debug, PartialEq, Eq, Structural)]
pub struct PageWindow {
    pub page: i64,
    pub per_page: i64,
    pub offset: i64,
    pub fetch_limit: i64,
    pub next_page: i64,
}

impl PageWindow {
    /// The window of page `page_number(page)` with `per_page` rows a page.
    pub open spec fn is_window_of(self, page: Option<i64>, per_page: i64) -> bool {
        &&& self.page == page_number(page)
        &&& self.per_page == per_page
        &&& self.offset == (page_number(page) - 1) * per_page
        &&& self.fetch_limit == per_page + 1
        &&& self.next_page == page_number(page) + 1
    }
}

/// The window for a requested page, or `None` when its offset or the next
/// page number would not fit in an `i64`.
pub fn page_window(page: Option<i64>, per_page: i64) -> (r: Option<PageWindow>)
    requires
        1 <= per_page < i64::MAX,
    ensures
        r is Some <==> window_fits(page, per_page),
        r matches Some(w) ==> w.is_window_of(page, per_page),
{
    let p: i64 = match page {
        Some(p) => if p >= 1 { p } else { 1 },
        None => 1,
    };
    if p == i64::MAX {
        return None;
    }
    if p - 1 > i64::MAX / per_page {
        assert((p - 1) * per_page > i64::MAX) by (nonlinear_arith)
            requires
                p - 1 > i64::MAX / per_page,
                per_page >= 1,
        ;
        return None;
    }
    assert((p - 1) * per_page <= i64::MAX) by (nonlinear_arith)
        requires
            p - 1 <= i64::MAX / per_page,
            per_page >= 1,
    ;
    assert(0 <= (p - 1) * per_page) by (nonlinear_arith)
        requires
            p >= 1,
            per_page >= 1,
    ;
    Some(PageWindow {
        page: p,
        per_page,
        offset: (p - 1) * per_page,
        fetch_limit: per_page + 1,
        next_page: p + 1,
    })
}

/// A post that may appear in a listing for `tier`: neither draft nor deleted,
/// and of a visibility that the tier allows.
pub open spec fn listable(tier: Option<Seq<char>>, p: Post) -> bool {
    p.is_published_spec() && can_view_spec(tier, p.visibility@)
}

/// The rows among `rows` that may be listed for `tier`, in their order.
pub open spec fn qualifying(rows: Seq<Post>, tier: Option<Seq<char>>) -> Seq<Post> {
    rows.filter(|p: Post| listable(tier, p))
}

/// The first `n` items of `s`, or all of them when there are fewer.
pub open spec fn first_n<T>(s: Seq<T>, n: int) -> Seq<T> {
    if s.len() <= n {
        s
    } else {
        s.take(n)
    }
}

/// One page of a listing and whether another follows.
#[derive(Debug)]
pub struct ListingPage {
    pub posts: Vec<Post>,
    pub has_next_page: bool,
    pub next_page: i64,
}

/// The page that the store's `rows` make: of the rows that the caller's
/// tier may see, at most `per_page` in the order given, and whether more
/// than that came back. The store is asked for the same filter; applying it
/// again here keeps a post that the tier disallows out of every listing.
pub fn listing_page(rows: Vec<Post>, user_tier: Option<&str>, window: &PageWindow) -> (r:
    ListingPage)
    requires
        window.per_page >= 0,
    ensures
        r.posts@ == first_n(qualifying(rows@, opt_text(user_tier)), window.per_page as int),
        r.has_next_page == (qualifying(rows@, opt_text(user_tier)).len() > window.per_page),
        r.next_page == window.next_page,
{
    let ghost tier = opt_text(user_tier);
    let ghost all = rows@;
    let mut rest = rows;
    let mut kept: Vec<Post> = Vec::new();
    let mut seen: usize = 0;
    let n = rest.len();
    while rest.len() > 0
        invariant
            n == all.len(),
            tier == opt_text(user_tier),
            seen + rest@.len() == n,
            rest@ == all.subrange(seen as int, n as int),
            kept@ == qualifying(all.subrange(0, seen as int), tier),
        decreases rest@.len(),
    {
        let p = rest.remove(0);
        let ghost before = all.subrange(0, seen as int);
        let ghost upto = all.subrange(0, seen + 1);
        proof {
            assert(upto.drop_last() == before);
            assert(upto.last() == p);
            reveal(Seq::filter);
            assert(qualifying(upto, tier) == if listable(tier, p) {
                qualifying(before, tier).push(p)
            } else {
                qualifying(before, tier)
            });
        }
        let keep = !p.is_draft && !p.is_deleted && can_view_visibility(
            user_tier,
            p.visibility.as_str(),
        );
        assert(keep == listable(tier, p));
        if keep {
            kept.push(p);
        }
        seen = seen + 1;
    }
    proof {
        assert(all.subrange(0, n as int) == all);
    }
    let has_next_page = kept.len() as u128 > window.per_page as u128;
    if has_next_page {
        kept.truncate(window.per_page as usize);
    }
    ListingPage { posts: kept, has_next_page, next_page: window.next_page }
}

/// Every post of a listing page is of a visibility that the caller's tier
/// allows, and is neither a draft nor deleted.
pub proof fn lemma_listing_respects_visibility(rows: Seq<Post>, tier: Option<Seq<char>>, per_page: int)
    requires
        per_page >= 0,
    ensures
        forall|i: int|
            0 <= i < first_n(qualifying(rows, tier), per_page).len() ==> {
                let p = #[trigger] first_n(qualifying(rows, tier), per_page)[i];
                can_view_spec(tier, p.visibility@) && p.is_published_spec()
            },
{
    let q = qualifying(rows, tier);
    let pred = |p: Post| listable(tier, p);
    assert forall|i: int| 0 <= i < first_n(q, per_page).len() implies listable(
        tier,
        #[trigger] first_n(q, per_page)[i],
    ) by {
        assert(first_n(q, per_page)[i] == q[i]);
        rows.lemma_filter_pred(pred, i);
    }
}

/// A page never holds more than `per_page` posts, and a next page is
/// announced exactly when at least `per_page + 1` qualifying rows came back
/// from the window's offset.
pub proof fn lemma_page_bounds(rows: Seq<Post>, tier: Option<Seq<char>>, per_page: int)
    requires
        per_page >= 0,
    ensures
        first_n(qualifying(rows, tier), per_page).len() <= per_page,
        (qualifying(rows, tier).len() > per_page) == (qualifying(rows, tier).len() >= per_page + 1),
        qualifying(rows, tier).len() <= per_page ==> first_n(qualifying(rows, tier), per_page)
            == qualifying(rows, tier),
{
}

/// The rows that the store returns for a window over the data set `data`:
/// the posts that qualify for `tier`, in the store's order, from `offset` on,
/// at most `limit` of them.
pub open spec fn store_slice(data: Seq<Post>, tier: Option<Seq<char>>, offset: int, limit: int) -> Seq<Post> {
    let q = qualifying(data, tier);
    if offset >= q.len() {
        Seq::empty()
    } else {
        first_n(q.subrange(offset, q.len() as int), limit)
    }
}

proof fn lemma_qualifying_keeps_all(s: Seq<Post>, tier: Option<Seq<char>>)
    requires
        forall|i: int| 0 <= i < s.len() ==> listable(tier, #[trigger] s[i]),
    ensures
        qualifying(s, tier) == s,
    decreases s.len(),
{
    reveal(Seq::filter);
    if s.len() > 0 {
        let t = s.drop_last();
        assert forall|i: int| 0 <= i < t.len() implies listable(tier, #[trigger] t[i]) by {
            assert(t[i] == s[i]);
        }
        lemma_qualifying_keeps_all(t, tier);
        assert(listable(tier, s[s.len() - 1]));
        assert(s =~= t.push(s.last()));
    }
}

/// Pagination over the data set: when the store returns its slice for a
/// window, the page holds `min(per_page, max(0, |Q| - offset))` posts, where
/// `Q` are the posts of the data set that qualify for the tier, and a next
/// page is announced exactly when `|Q| >= offset + per_page + 1`.
pub proof fn lemma_page_of_store_slice(data: Seq<Post>, tier: Option<Seq<char>>, w: PageWindow)
    requires
        w.per_page >= 0,
        w.offset >= 0,
        w.fetch_limit == w.per_page + 1,
    ensures
        ({
            let rows = store_slice(data, tier, w.offset as int, w.fetch_limit as int);
            let q = qualifying(data, tier);
            &&& qualifying(rows, tier) == rows
            &&& first_n(qualifying(rows, tier), w.per_page as int).len() == if q.len() <= w.offset {
                0
            } else if q.len() - w.offset <= w.per_page {
                q.len() - w.offset
            } else {
                w.per_page as int
            }
            &&& (qualifying(rows, tier).len() > w.per_page) == (q.len() >= w.offset + w.per_page
                + 1)
        }),
{
    let rows = store_slice(data, tier, w.offset as int, w.fetch_limit as int);
    let q = qualifying(data, tier);
    let pred = |p: Post| listable(tier, p);
    assert forall|i: int| 0 <= i < rows.len() implies listable(tier, #[trigger] rows[i]) by {
        assert(rows[i] == q[w.offset + i]);
        data.lemma_filter_pred(pred, w.offset + i);
    }
    lemma_qualifying_keeps_all(rows, tier);
}

/// Repeating a listing on unchanged data repeats its page: when two readings
/// of the store hold the same qualifying posts and each returns them in feed
/// order, the store's slices for one window are equal.
pub proof fn lemma_repeated_listing_equal(
    d1: Seq<Post>,
    d2: Seq<Post>,
    tier: Option<Seq<char>>,
    w: PageWindow,
)
    requires
        qualifying(d1, tier).to_set() == qualifying(d2, tier).to_set(),
        strictly_ordered(qualifying(d1, tier), |a: Post, b: Post| feed_precedes(a, b)),
        strictly_ordered(qualifying(d2, tier), |a: Post, b: Post| feed_precedes(a, b)),
    ensures
        store_slice(d1, tier, w.offset as int, w.fetch_limit as int) == store_slice(
            d2,
            tier,
            w.offset as int,
            w.fetch_limit as int,
        ),
{
    lemma_listing_order_determined(qualifying(d1, tier), qualifying(d2, tier));
}

/// Feed order: pinned posts first, then newer before older, and on equal
/// creation times the smaller id first.
pub open spec fn feed_precedes(a: Post, b: Post) -> bool {
    (a.is_pinned && !b.is_pinned) || (a.is_pinned == b.is_pinned && (a.created_at.unix_micros
        > b.created_at.unix_micros || (a.created_at.unix_micros == b.created_at.unix_micros && a.id
        < b.id)))
}

/// Search order: newer before older, and on equal creation times the
/// smaller id first; pinning plays no part.
pub open spec fn search_precedes(a: Post, b: Post) -> bool {
    a.created_at.unix_micros > b.created_at.unix_micros || (a.created_at.unix_micros
        == b.created_at.unix_micros && a.id < b.id)
}

/// Each item of `s` precedes every later one.
pub open spec fn strictly_ordered(s: Seq<Post>, before: spec_fn(Post, Post) -> bool) -> bool {
    forall|i: int, j: int| 0 <= i < j < s.len() ==> #[trigger] before(s[i], s[j])
}

/// An order under which no two posts precede each other.
pub open spec fn asymmetric(before: spec_fn(Post, Post) -> bool) -> bool {
    forall|a: Post, b: Post| #[trigger] before(a, b) ==> !before(b, a)
}

proof fn lemma_ordered_unique(s1: Seq<Post>, s2: Seq<Post>, before: spec_fn(Post, Post) -> bool)
    requires
        asymmetric(before),
        strictly_ordered(s1, before),
        strictly_ordered(s2, before),
        s1.to_set() == s2.to_set(),
    ensures
        s1 == s2,
    decreases s1.len(),
{
    if s1.len() == 0 {
        if s2.len() > 0 {
            assert(s2.to_set().contains(s2[0]));
        }
        assert(s1 =~= s2);
        return;
    }
    assert(s1.to_set().contains(s1[0]));
    assert(s2.len() > 0);
    assert(s2.to_set().contains(s2[0]));
    let a = s1[0];
    let b = s2[0];
    let k = choose|k: int| 0 <= k < s2.len() && s2[k] == a;
    let m = choose|m: int| 0 <= m < s1.len() && s1[m] == b;
    if a != b {
        assert(before(b, s2[k]));
        assert(before(a, s1[m]));
        assert(false);
    }
    let t1 = s1.drop_first();
    let t2 = s2.drop_first();
    assert forall|x: Post| t1.to_set().contains(x) implies t2.to_set().contains(x) by {
        let i = choose|i: int| 0 <= i < t1.len() && t1[i] == x;
        assert(before(s1[0], s1[i + 1]));
        assert(s2.to_set().contains(x));
        let j = choose|j: int| 0 <= j < s2.len() && s2[j] == x;
        assert(j != 0);
        assert(t2[j - 1] == x);
    }
    assert forall|x: Post| t2.to_set().contains(x) implies t1.to_set().contains(x) by {
        let i = choose|i: int| 0 <= i < t2.len() && t2[i] == x;
        assert(before(s2[0], s2[i + 1]));
        assert(s1.to_set().contains(x));
        let j = choose|j: int| 0 <= j < s1.len() && s1[j] == x;
        assert(j != 0);
        assert(t1[j - 1] == x);
    }
    assert(t1.to_set() =~= t2.to_set());
    assert forall|i: int, j: int| 0 <= i < j < t1.len() implies #[trigger] before(t1[i], t1[j]) by {
        assert(before(s1[i + 1], s1[j + 1]));
    }
    assert forall|i: int, j: int| 0 <= i < j < t2.len() implies #[trigger] before(t2[i], t2[j]) by {
        assert(before(s2[i + 1], s2[j + 1]));
    }
    lemma_ordered_unique(t1, t2, before);
    assert(s1 =~= seq![a] + t1);
    assert(s2 =~= seq![b] + t2);
}

/// Listings are determined by the data alone: two sequences of the same
/// posts that are both in feed order (or both in search order) are the same
/// sequence, so repeating a listing on unchanged data repeats its result.
pub proof fn lemma_listing_order_determined(s1: Seq<Post>, s2: Seq<Post>)
    requires
        s1.to_set() == s2.to_set(),
    ensures
        strictly_ordered(s1, |a: Post, b: Post| feed_precedes(a, b)) && strictly_ordered(
            s2,
            |a: Post, b: Post| feed_precedes(a, b),
        ) ==> s1 == s2,
        strictly_ordered(s1, |a: Post, b: Post| search_precedes(a, b)) && strictly_ordered(
            s2,
            |a: Post, b: Post| search_precedes(a, b),
        ) ==> s1 == s2,
{
    let feed = |a: Post, b: Post| feed_precedes(a, b);
    let search = |a: Post, b: Post| search_precedes(a, b);
    assert(asymmetric(feed));
    assert(asymmetric(search));
    if strictly_ordered(s1, feed) && strictly_ordered(s2, feed) {
        lemma_ordered_unique(s1, s2, feed);
    }
    if strictly_ordered(s1, search) && strictly_ordered(s2, search) {
        lemma_ordered_unique(s1, s2, search);
    }
}

/// A listed post with what its list entry shows beside it.
#[derive(Clone, Debug)]
pub struct PostWithMedia {
    pub id: i64,
    pub title: Option<String>,
    pub body: String,
    pub location: Option<String>,
    pub source_platform: String,
    pub created_at: Timestamp,
    pub featured_media: Option<PostMediaWithItem>,
    pub tags: Vec<Tag>,
}

impl PostWithMedia {
    /// The body, cut to 280 characters with a trailing "..." when longer.
    pub fn preview(&self) -> (r: String)
        ensures
            r@ == preview_spec(self.body@),
    {
        preview_text(self.body.as_str())
    }

    /// The post's fields with its featured media and its tags.
    pub open spec fn enriches(self, p: Post, featured: Option<PostMediaWithItem>, tags: Seq<Tag>) -> bool {
        &&& self.id == p.id
        &&& self.title == p.title
        &&& self.body == p.body
        &&& self.location == p.location
        &&& self.source_platform == p.source_platform
        &&& self.created_at == p.created_at
        &&& self.featured_media == featured
        &&& self.tags@ == tags
    }
}

/// Joins each post with its featured media and its tags, position by
/// position, keeping the order of the posts.
pub fn enrich_posts(
    posts: Vec<Post>,
    featured: Vec<Option<PostMediaWithItem>>,
    tags: Vec<Vec<Tag>>,
) -> (r: Vec<PostWithMedia>)
    requires
        posts.len() == featured.len(),
        posts.len() == tags.len(),
    ensures
        r.len() == posts.len(),
        forall|i: int|
            0 <= i < r.len() ==> #[trigger] r@[i].enriches(posts@[i], featured@[i], tags@[i]@),
{
    let ghost ps = posts@;
    let ghost fs = featured@;
    let ghost ts = tags@;
    let mut posts = posts;
    let mut featured = featured;
    let mut tags = tags;
    let mut out: Vec<PostWithMedia> = Vec::new();
    let n = posts.len();
    while posts.len() > 0
        invariant
            n == ps.len(),
            n == fs.len(),
            n == ts.len(),
            out.len() + posts.len() == n,
            posts@ == ps.subrange(out.len() as int, n as int),
            featured@ == fs.subrange(out.len() as int, n as int),
            tags@ == ts.subrange(out.len() as int, n as int),
            forall|i: int| 0 <= i < out.len() ==> #[trigger] out@[i].enriches(ps[i], fs[i], ts[i]@),
        decreases posts.len(),
    {
        let p = posts.remove(0);
        let m = featured.remove(0);
        let t = tags.remove(0);
        out.push(
            PostWithMedia {
                id: p.id,
                title: p.title,
                body: p.body,
                location: p.location,
                source_platform: p.source_platform,
                created_at: p.created_at,
                featured_media: m,
                tags: t,
            },
        );
    }
    out
}

} // verus!
