//! Shared response objects, and the traversal of paginated collections.
//!
//! A page links to its neighbours by address. Fetching a linked page is
//! network work, so a traversal is driven from outside: `PageWalk` says
//! which address to fetch next (`pending`), takes the fetched page (`feed`),
//! and at the end yields every item of the collection in order.
use vstd::prelude::*;
use crate::request::{copy_opt, opt_text};
use vstd::seq_lib::lemma_flatten_concat;

verus! {

/// One page of an offset-paginated collection.
#[derive(Clone, Debug, Default)]
pub struct PagingObject<T> {
    pub href: String,
    pub items: Vec<T>,
    pub limit: u32,
    pub next: Option<String>,
    pub offset: Option<u32>,
    pub previous: Option<String>,
    pub total: Option<u32>,
}

/// The position after which a cursor page continues.
#[derive(Clone, Debug, Default)]
pub struct Cursor {
    pub after: String,
}

/// One page of a cursor-paginated collection: it only links forward.
#[derive(Clone, Debug, Default)]
pub struct CursorPagingObject<T> {
    pub href: String,
    pub items: Vec<T>,
    pub limit: u32,
    pub next: Option<String>,
    pub cursors: Cursor,
    pub total: Option<u32>,
}

#[derive(Clone, Debug, Default)]
pub struct Image {
    pub height: Option<u32>,
    pub url: String,
    pub width: Option<u32>,
}

#[derive(Clone, Debug, Default)]
pub struct Follower {
    pub href: Option<String>,
    pub total: u32,
}

/// What traversal sees of a page: its own address, its items and its links.
pub struct PageModel<T> {
    pub href: Seq<char>,
    pub items: Seq<T>,
    pub previous: Option<Seq<char>>,
    pub next: Option<Seq<char>>,
}

impl<T> PagingObject<T> {
    pub open spec fn page(&self) -> PageModel<T> {
        PageModel {
            href: self.href@,
            items: self.items@,
            previous: opt_text(self.previous),
            next: opt_text(self.next),
        }
    }

    /// A copy of the page's items, in order.
    pub fn get_items(&self) -> (r: Vec<T>)
        where
            T: Clone,
        ensures
            r.len() == self.items.len(),
            forall|i: int| 0 <= i < r.len() ==> cloned(self.items[i], #[trigger] r[i]),
    {
        self.items.clone()
    }
}

impl<T> CursorPagingObject<T> {
    pub open spec fn page(&self) -> PageModel<T> {
        PageModel { href: self.href@, items: self.items@, previous: None, next: opt_text(self.next) }
    }

    /// A copy of the page's items, in order.
    pub fn get_items(&self) -> (r: Vec<T>)
        where
            T: Clone,
        ensures
            r.len() == self.items.len(),
            forall|i: int| 0 <= i < r.len() ==> cloned(self.items[i], #[trigger] r[i]),
    {
        self.items.clone()
    }
}

/// The state of a traversal: the items gathered before, at and after the
/// starting page, the direction, the address still to fetch, and the
/// starting page's forward link.
pub struct WalkModel<T> {
    pub before: Seq<T>,
    pub current: Seq<T>,
    pub after: Seq<T>,
    pub backward: bool,
    pub pending: Option<Seq<char>>,
    pub forward_link: Option<Seq<char>>,
}

/// A traversal begins at a page: it first walks back while there is a
/// previous page, then forward from the starting page.
pub open spec fn walk_start<T>(p: PageModel<T>) -> WalkModel<T> {
    WalkModel {
        before: Seq::empty(),
        current: p.items,
        after: Seq::empty(),
        backward: p.previous.is_some(),
        pending: if p.previous.is_some() { p.previous } else { p.next },
        forward_link: p.next,
    }
}

/// Takes in the page fetched from the pending address. Walking back, its
/// items go before all gathered so far, and where it has no previous page the
/// walk turns forward; walking forward, its items go after.
pub open spec fn walk_feed<T>(w: WalkModel<T>, p: PageModel<T>) -> WalkModel<T> {
    if w.pending.is_none() {
        w
    } else if w.backward {
        if p.previous.is_some() {
            WalkModel { before: p.items + w.before, pending: p.previous, ..w }
        } else {
            WalkModel { before: p.items + w.before, backward: false, pending: w.forward_link, ..w }
        }
    } else {
        WalkModel { after: w.after + p.items, pending: p.next, ..w }
    }
}

/// Every item gathered, in collection order.
pub open spec fn walk_items<T>(w: WalkModel<T>) -> Seq<T> {
    w.before + w.current + w.after
}

/// A traversal after it has taken in `pages`, in order.
pub open spec fn walk_run<T>(w: WalkModel<T>, pages: Seq<PageModel<T>>) -> WalkModel<T>
    decreases pages.len(),
{
    if pages.len() == 0 {
        w
    } else {
        walk_feed(walk_run(w, pages.drop_last()), pages.last())
    }
}

/// Pages that link forward: each page's `next` is the address of the page
/// after it, and the last page has none.
pub open spec fn links_forward<T>(pages: Seq<PageModel<T>>) -> bool {
    &&& pages.len() > 0
    &&& pages.last().next.is_none()
    &&& forall|i: int| 0 <= i < pages.len() - 1 ==> #[trigger] pages[i].next == Some(pages[i + 1].href)
}

/// Pages that link back up to page `k`: the first page has no previous page,
/// and up to `k` each page's `previous` is the address of the page before it.
pub open spec fn links_back_to<T>(pages: Seq<PageModel<T>>, k: int) -> bool {
    &&& pages.len() > 0
    &&& pages[0].previous.is_none()
    &&& forall|i: int| 0 < i <= k ==> #[trigger] pages[i].previous == Some(pages[i - 1].href)
}

/// All pages link both ways.
pub open spec fn is_chain<T>(pages: Seq<PageModel<T>>) -> bool {
    links_forward(pages) && links_back_to(pages, pages.len() - 1)
}

pub open spec fn page_items<T>(pages: Seq<PageModel<T>>) -> Seq<Seq<T>> {
    pages.map_values(|p: PageModel<T>| p.items)
}

/// The items of all pages, page after page.
pub open spec fn chain_items<T>(pages: Seq<PageModel<T>>) -> Seq<T> {
    page_items(pages).flatten()
}

/// The order in which a traversal from page `k` fetches pages: back from
/// `k - 1` to the first, then forward from `k + 1` to the last.
pub open spec fn fetch_order<T>(pages: Seq<PageModel<T>>, k: int) -> Seq<PageModel<T>> {
    Seq::new(k as nat, |i: int| pages[k - 1 - i]) + pages.subrange(k + 1, pages.len() as int)
}

proof fn lemma_run_step<T>(w: WalkModel<T>, order: Seq<PageModel<T>>, j: int)
    requires
        0 <= j < order.len(),
    ensures
        walk_run(w, order.take(j + 1)) == walk_feed(walk_run(w, order.take(j)), order[j]),
{
    assert(order.take(j + 1).drop_last() =~= order.take(j));
}

proof fn lemma_items_prepend<T>(pages: Seq<PageModel<T>>, a: int, b: int)
    requires
        0 <= a < b <= pages.len(),
    ensures
        chain_items(pages.subrange(a, b)) == pages[a].items + chain_items(pages.subrange(a + 1, b)),
{
    let s = page_items(pages.subrange(a, b));
    assert(s.drop_first() =~= page_items(pages.subrange(a + 1, b)));
}

proof fn lemma_items_append<T>(pages: Seq<PageModel<T>>, a: int, b: int)
    requires
        0 <= a <= b < pages.len(),
    ensures
        chain_items(pages.subrange(a, b + 1)) == chain_items(pages.subrange(a, b)) + pages[b].items,
{
    let s = page_items(pages.subrange(a, b));
    assert(page_items(pages.subrange(a, b + 1)) =~= s.push(pages[b].items));
    s.lemma_flatten_push(pages[b].items);
}

/// The walk back from page `k`, after `j` pages.
proof fn lemma_walk_back<T>(pages: Seq<PageModel<T>>, k: int, j: int)
    requires
        links_back_to(pages, k),
        0 <= k < pages.len(),
        0 <= j <= k,
    ensures
        ({
            let order = fetch_order(pages, k);
            let w = walk_run(walk_start(pages[k]), order.take(j));
            &&& w.current == pages[k].items
            &&& w.after == Seq::<T>::empty()
            &&& w.forward_link == pages[k].next
            &&& w.before == chain_items(pages.subrange(k - j, k))
            &&& j < k ==> w.backward && w.pending == Some(pages[k - 1 - j].href)
            &&& j == k ==> !w.backward && w.pending == pages[k].next
        }),
    decreases j,
{
    let order = fetch_order(pages, k);
    let w0 = walk_start(pages[k]);
    if j == 0 {
        assert(order.take(0) =~= Seq::<PageModel<T>>::empty());
        assert(page_items(pages.subrange(k, k)) =~= Seq::<Seq<T>>::empty());
        if k > 0 {
            assert(pages[k].previous == Some(pages[k - 1].href));
        }
    } else {
        lemma_walk_back(pages, k, j - 1);
        lemma_run_step(w0, order, j - 1);
        let p = pages[k - j];
        assert(order[j - 1] == p);
        lemma_items_prepend(pages, k - j, k);
        if j < k {
            assert(pages[k - j].previous == Some(pages[k - j - 1].href));
        }
    }
}

/// The walk forward from page `k`, after the walk back and `m` further pages.
proof fn lemma_walk_forward<T>(pages: Seq<PageModel<T>>, k: int, m: int)
    requires
        links_back_to(pages, k),
        links_forward(pages),
        0 <= k < pages.len(),
        0 <= m < pages.len() - k,
    ensures
        ({
            let order = fetch_order(pages, k);
            let w = walk_run(walk_start(pages[k]), order.take(k + m));
            &&& w.current == pages[k].items
            &&& w.before == chain_items(pages.subrange(0, k))
            &&& w.after == chain_items(pages.subrange(k + 1, k + 1 + m))
            &&& !w.backward
            &&& w.pending == pages[k + m].next
        }),
    decreases m,
{
    let order = fetch_order(pages, k);
    let w0 = walk_start(pages[k]);
    lemma_walk_back(pages, k, k);
    if m == 0 {
        assert(page_items(pages.subrange(k + 1, k + 1)) =~= Seq::<Seq<T>>::empty());
    } else {
        lemma_walk_forward(pages, k, m - 1);
        lemma_run_step(w0, order, k + m - 1);
        assert(order[k + m - 1] == pages[k + m]);
        assert(pages[k + m - 1].next == Some(pages[k + m].href));
        lemma_items_append(pages, k + 1, k + m);
    }
}

/// Traversal from any page of a chain fetches exactly the pages of the
/// chain, each from the address the walk asked for, then stops; it yields
/// the items of all pages in chain order, each once. Pages may be empty.
pub proof fn lemma_walk_chain<T>(pages: Seq<PageModel<T>>, k: int)
    requires
        links_forward(pages),
        links_back_to(pages, k),
        0 <= k < pages.len(),
    ensures
        ({
            let order = fetch_order(pages, k);
            let start = walk_start(pages[k]);
            &&& order.len() == pages.len() - 1
            &&& forall|j: int|
                0 <= j < order.len() ==> (#[trigger] walk_run(start, order.take(j))).pending == Some(
                    order[j].href,
                )
            &&& walk_run(start, order).pending.is_none()
            &&& walk_items(walk_run(start, order)) == chain_items(pages)
        }),
{
    let order = fetch_order(pages, k);
    let start = walk_start(pages[k]);
    let n = pages.len() as int;
    assert forall|j: int| 0 <= j < order.len() implies (#[trigger] walk_run(start, order.take(j))).pending
        == Some(order[j].href) by {
        if j < k {
            lemma_walk_back(pages, k, j);
            assert(order[j] == pages[k - 1 - j]);
        } else {
            lemma_walk_forward(pages, k, j - k);
            assert(order[j] == pages[j + 1]);
            assert(pages[j].next == Some(pages[j + 1].href));
        }
    }
    lemma_walk_forward(pages, k, n - 1 - k);
    assert(order.take(n - 1) =~= order);
    assert(pages.subrange(k + 1, n) =~= pages.subrange(k + 1, k + 1 + (n - 1 - k)));
    let left = page_items(pages.subrange(0, k));
    let right = page_items(pages.subrange(k + 1, n));
    assert(page_items(pages) =~= left + seq![pages[k].items] + right);
    lemma_flatten_concat(left + seq![pages[k].items], right);
    lemma_flatten_concat(left, seq![pages[k].items]);
    seq![pages[k].items].lemma_flatten_one_element();
    assert(walk_items(walk_run(start, order)) =~= chain_items(pages));
}

/// Forward traversal of a cursor chain from its first page fetches every
/// further page once, in order, then stops, and yields all items in page order.
pub proof fn lemma_walk_cursor_chain<T>(pages: Seq<PageModel<T>>)
    requires
        links_forward(pages),
        forall|i: int| 0 <= i < pages.len() ==> (#[trigger] pages[i]).previous.is_none(),
    ensures
        ({
            let order = pages.subrange(1, pages.len() as int);
            let start = walk_start(pages[0]);
            &&& forall|j: int|
                0 <= j < order.len() ==> (#[trigger] walk_run(start, order.take(j))).pending == Some(
                    order[j].href,
                )
            &&& walk_run(start, order).pending.is_none()
            &&& walk_items(walk_run(start, order)) == chain_items(pages)
        }),
{
    assert(fetch_order(pages, 0) =~= pages.subrange(1, pages.len() as int));
    lemma_walk_chain(pages, 0);
}

/// A traversal is not cut short by empty pages: whatever pages of the chain
/// hold no items, the gathered items still end with the last page's items.
pub proof fn lemma_walk_reaches_last_page<T>(pages: Seq<PageModel<T>>, k: int)
    requires
        links_forward(pages),
        links_back_to(pages, k),
        0 <= k < pages.len(),
    ensures
        ({
            let items = walk_items(walk_run(walk_start(pages[k]), fetch_order(pages, k)));
            let last = pages.last().items;
            &&& items.len() >= last.len()
            &&& items.subrange(items.len() - last.len(), items.len() as int) == last
        }),
{
    lemma_walk_chain(pages, k);
    let n = pages.len() as int;
    let init = page_items(pages.drop_last());
    assert(page_items(pages) =~= init.push(pages.last().items));
    init.lemma_flatten_push(pages.last().items);
    let items = chain_items(pages);
    let last = pages.last().items;
    assert(items.subrange(items.len() - last.len(), items.len() as int) =~= last);
}

/// A traversal of a paginated collection, begun at one page.
pub struct PageWalk<T> {
    before: Vec<T>,
    current: Vec<T>,
    after: Vec<T>,
    backward: bool,
    pending: Option<String>,
    forward_link: Option<String>,
}

impl<T> View for PageWalk<T> {
    type V = WalkModel<T>;

    closed spec fn view(&self) -> WalkModel<T> {
        WalkModel {
            before: self.before@,
            current: self.current@,
            after: self.after@,
            backward: self.backward,
            pending: opt_text(self.pending),
            forward_link: opt_text(self.forward_link),
        }
    }
}

impl<T> PageWalk<T> {
    fn start(items: Vec<T>, previous: Option<String>, next: Option<String>) -> (r: Self)
        ensures
            r@ == walk_start(PageModel { href: Seq::empty(), items: items@, previous: opt_text(previous), next: opt_text(next) }),
    {
        let backward = previous.is_some();
        let forward_link = copy_opt(&next);
        let pending = if backward { previous } else { next };
        PageWalk { before: Vec::new(), current: items, after: Vec::new(), backward, pending, forward_link }
    }

    /// Begins a traversal at an offset page.
    pub fn new(page: PagingObject<T>) -> (r: Self)
        ensures
            r@ == walk_start(page.page()),
    {
        let r = Self::start(page.items, page.previous, page.next);
        proof {
            let a = walk_start(page.page());
            assert(r@.before =~= a.before);
            assert(r@.after =~= a.after);
        }
        r
    }

    /// Begins a traversal at a cursor page; it only goes forward.
    pub fn from_cursor_page(page: CursorPagingObject<T>) -> (r: Self)
        ensures
            r@ == walk_start(page.page()),
    {
        let r = Self::start(page.items, None, page.next);
        proof {
            let a = walk_start(page.page());
            assert(r@.before =~= a.before);
            assert(r@.after =~= a.after);
        }
        r
    }

    /// The address of the page to fetch next, or `None` when the traversal is over.
    pub fn pending(&self) -> (r: Option<String>)
        ensures
            opt_text(r) == self@.pending,
    {
        copy_opt(&self.pending)
    }

    fn take_in(&mut self, items: Vec<T>, previous: Option<String>, next: Option<String>)
        ensures
            final(self)@ == walk_feed(old(self)@, PageModel { href: Seq::empty(), items: items@, previous: opt_text(previous), next: opt_text(next) }),
    {
        let ghost p = PageModel { href: Seq::<char>::empty(), items: items@, previous: opt_text(previous), next: opt_text(next) };
        if self.pending.is_none() {
            return;
        }
        if self.backward {
            let mut items = items;
            items.append(&mut self.before);
            self.before = items;
            if previous.is_some() {
                self.pending = previous;
            } else {
                self.backward = false;
                self.pending = copy_opt(&self.forward_link);
            }
        } else {
            let mut items = items;
            self.after.append(&mut items);
            self.pending = next;
        }
        proof {
            let a = walk_feed(old(self)@, p);
            assert(final(self)@.before =~= a.before);
            assert(final(self)@.after =~= a.after);
        }
    }

    /// Takes in the offset page fetched from the pending address.
    pub fn feed(&mut self, page: PagingObject<T>)
        ensures
            final(self)@ == walk_feed(old(self)@, page.page()),
    {
        self.take_in(page.items, page.previous, page.next);
    }

    /// Takes in the cursor page fetched from the pending address.
    pub fn feed_cursor_page(&mut self, page: CursorPagingObject<T>)
        ensures
            final(self)@ == walk_feed(old(self)@, page.page()),
    {
        self.take_in(page.items, None, page.next);
    }

    /// All items gathered, in collection order.
    pub fn into_items(self) -> (r: Vec<T>)
        ensures
            r@ == walk_items(self@),
    {
        let mut r = self.before;
        let mut current = self.current;
        let mut after = self.after;
        r.append(&mut current);
        r.append(&mut after);
        r
    }
}

} // verus!
