//! Iterating a pageable endpoint: a buffer of the current page, refilled
//! from the next page when it runs dry, until the server reports the last
//! page.
use vstd::prelude::*;
use crate::client::Client;
use crate::endpoint::{decimal, push_decimal, Endpoint, Pageable};
use crate::error::ApiError;
use crate::query::{call_endpoint, queried};
use crate::query_params::QueryParams;
use crate::types::{Pagination, Root};
use crate::utils::build_paged_request;

verus! {

/// The largest page number.
pub const LAST_PAGE_NUMBER: u32 = 0xffff_ffff;

/// The page of a pageable endpoint that is fetched next.
#[derive(Debug)]
pub struct InnerState<'a, E> {
    /// The endpoint.
    pub endpoint: &'a E,
    /// The page number, from 1.
    pub page: u32,
}

/// The query parameter that selects page `n`.
pub open spec fn page_params(n: nat) -> Seq<(Seq<char>, Seq<char>)> {
    seq![("page"@, decimal(n))]
}

/// The paging details of a response or, where it has none, details that
/// announce no next page.
pub open spec fn pagination_or_default(p: Option<Pagination>) -> Pagination {
    match p {
        Some(q) => q,
        None => Pagination { last_visible_page: 0, has_next_page: false, items: None },
    }
}

impl<'a, E> InnerState<'a, E> {
    /// The query parameter that selects the page.
    pub open spec fn params(&self) -> Seq<(Seq<char>, Seq<char>)> {
        page_params(self.page as nat)
    }

    /// The query parameter that selects the page, `page=<n>`.
    pub fn query_params(&self) -> (r: QueryParams)
        ensures
            r@ == self.params(),
    {
        let mut n = String::new();
        push_decimal(&mut n, self.page);
        let mut q = QueryParams::new();
        q.append_pair("page", n.as_str());
        assert(q@ =~= self.params());
        q
    }
}

impl<'a, E: Endpoint + Pageable> InnerState<'a, E> {
    /// Fetches this page: its items, and its paging details, or the default
    /// ones (no next page) where the response has none. Errors are handed on
    /// as `query` says.
    pub fn query<C: Client, T, F: Fn(&serde_json::Value) -> Result<Root<Vec<T>>, serde_json::Error>>(
        &self,
        client: &C,
        decode: F,
        expected_type: &'static str,
    ) -> (r: Result<(Vec<T>, Pagination), ApiError<C::Error>>)
        requires
            forall|v: &serde_json::Value| decode.requires((v,)),
        ensures
            exists|out: Result<Root<Vec<T>>, ApiError<C::Error>>|
                #[trigger] queried(self.endpoint, self.params(), decode, expected_type, out) && r == page_of(out),
    {
        let request = build_paged_request(self, client);
        let out = call_endpoint(self.endpoint, client, request, Ghost(self.params()), decode, expected_type);
        let ghost g = out;
        let r = match out {
            Ok(root) => Ok((root.data, unwrap_pagination(root.pagination))),
            Err(e) => Err(e),
        };
        assert(r == page_of(g));
        r
    }
}

/// The items and paging details of a decoded page, or the error as it is.
pub open spec fn page_of<T, X>(out: Result<Root<Vec<T>>, ApiError<X>>) -> Result<(Vec<T>, Pagination), ApiError<X>> {
    match out {
        Ok(root) => Ok((root.data, pagination_or_default(root.pagination))),
        Err(e) => Err(e),
    }
}

/// The paging details of a response or, where it has none, details that
/// announce no next page.
pub fn unwrap_pagination(p: Option<Pagination>) -> (r: Pagination)
    ensures
        r == pagination_or_default(p),
{
    match p {
        Some(q) => q,
        None => Pagination::default(),
    }
}

/// Where an iteration over pages stands: the page fetched next, the items
/// of the current page not yet handed out, in server order, and whether
/// the current page was the last.
pub struct PageState<T> {
    pub page: nat,
    pub buffered: Seq<T>,
    pub last: bool,
}

/// A sequence in reverse order.
pub open spec fn rev<T>(s: Seq<T>) -> Seq<T> {
    Seq::new(s.len(), |i: int| s[s.len() - 1 - i])
}

/// Hands out the first buffered item.
pub open spec fn popped<T>(s: PageState<T>) -> (PageState<T>, Option<T>) {
    (PageState { page: s.page, buffered: s.buffered.drop_first(), last: s.last }, Some(s.buffered[0]))
}

/// Page `s.page` came back with `items` and with `has_next` as its
/// next-page flag: the page number moves on (it stays at the largest page
/// number, which then counts as the last), the page replaces the buffer and
/// its first item, if any, is handed out at once.
pub open spec fn fetched<T>(s: PageState<T>, items: Seq<T>, has_next: bool) -> (PageState<T>, Option<T>) {
    let page = if s.page < LAST_PAGE_NUMBER { s.page + 1 } else { s.page };
    let last = !has_next || s.page >= LAST_PAGE_NUMBER;
    if items.len() == 0 {
        (PageState { page, buffered: items, last }, None)
    } else {
        (PageState { page, buffered: items.drop_first(), last }, Some(items[0]))
    }
}

/// An item handed out as a successful one.
pub open spec fn lift<T, X>(o: Option<T>) -> Option<Result<T, X>> {
    match o {
        Some(x) => Some(Ok(x)),
        None => None,
    }
}

/// An iterator over the items of a pageable endpoint.
pub struct PagedIter<'a, E, C, T> {
    client: &'a C,
    state: InnerState<'a, E>,
    current_page: Vec<T>,
    last_page: bool,
}

impl<'a, E, C, T> View for PagedIter<'a, E, C, T> {
    type V = PageState<T>;

    closed spec fn view(&self) -> PageState<T> {
        PageState { page: self.state.page as nat, buffered: rev(self.current_page@), last: self.last_page }
    }
}

/// The items of `items`, in reverse order.
fn reversed<T>(items: Vec<T>) -> (r: Vec<T>)
    ensures
        rev(r@) == items@,
{
    let ghost orig = items@;
    let mut items = items;
    let mut out: Vec<T> = Vec::new();
    assert(items@ + rev(out@) =~= orig);
    while items.len() > 0
        invariant
            items@ + rev(out@) == orig,
        decreases items.len(),
    {
        let ghost before_items = items@;
        let ghost before_out = out@;
        let x = items.pop().unwrap();
        out.push(x);
        assert(rev(out@) =~= seq![x] + rev(before_out));
        assert(items@ + rev(out@) =~= before_items + rev(before_out));
    }
    assert(rev(out@) =~= orig);
    out
}

impl<'a, E, C, T> PagedIter<'a, E, C, T> {
    /// The endpoint that is iterated.
    pub closed spec fn endpoint_ref(&self) -> &'a E {
        self.state.endpoint
    }

    /// The transport that fetches the pages.
    pub closed spec fn client_ref(&self) -> &'a C {
        self.client
    }

    /// The page fetched next and the endpoint.
    pub fn state(&self) -> (r: &InnerState<'a, E>)
        ensures
            r.page as nat == self@.page,
            r.endpoint == self.endpoint_ref(),
    {
        &self.state
    }

    /// The transport that fetches the pages.
    pub fn client(&self) -> (r: &'a C)
        ensures
            r == self.client_ref(),
    {
        self.client
    }

    /// Whether the buffer is empty and another page is to be fetched.
    pub fn needs_fetch(&self) -> (r: bool)
        ensures
            r == (self@.buffered.len() == 0 && !self@.last),
    {
        self.current_page.len() == 0 && !self.last_page
    }

    /// Hands out the next buffered item, if there is one.
    pub fn pop_buffered(&mut self) -> (r: Option<T>)
        ensures
            old(self)@.buffered.len() > 0 ==> (final(self)@, r) == popped(old(self)@),
            old(self)@.buffered.len() == 0 ==> final(self)@ == old(self)@ && r is None,
            final(self).endpoint_ref() == old(self).endpoint_ref(),
            final(self).client_ref() == old(self).client_ref(),
    {
        let ghost before = self.current_page@;
        let r = self.current_page.pop();
        proof {
            if before.len() > 0 {
                assert(rev(self.current_page@) =~= rev(before).drop_first());
            } else {
                assert(rev(self.current_page@) =~= rev(before));
            }
        }
        r
    }

    /// Takes in the page just fetched, with its paging details, and hands
    /// out its first item, if any.
    pub fn accept_page(&mut self, items: Vec<T>, pagination: Pagination) -> (r: Option<T>)
        ensures
            (final(self)@, r) == fetched(old(self)@, items@, pagination.has_next_page),
            final(self).endpoint_ref() == old(self).endpoint_ref(),
            final(self).client_ref() == old(self).client_ref(),
    {
        let ghost fetched_items = items@;
        let last = !pagination.has_next_page || self.state.page == LAST_PAGE_NUMBER;
        if self.state.page < LAST_PAGE_NUMBER {
            self.state.page = self.state.page + 1;
        }
        self.last_page = last;
        self.current_page = reversed(items);
        let r = self.pop_buffered();
        proof {
            if fetched_items.len() == 0 {
                assert(self@.buffered =~= fetched_items);
            }
        }
        r
    }
}

impl<'a, E: Endpoint + Pageable, C, T> PagedIter<'a, E, C, T> {
    /// An iterator that has fetched nothing yet and starts at page 1.
    pub fn new(endpoint: &'a E, client: &'a C) -> (r: Self)
        ensures
            r@ == (PageState::<T> { page: 1, buffered: Seq::empty(), last: false }),
            r.endpoint_ref() == endpoint,
            r.client_ref() == client,
    {
        let r = PagedIter {
            client,
            state: InnerState { endpoint, page: 1 },
            current_page: Vec::new(),
            last_page: false,
        };
        assert(r@.buffered =~= Seq::<T>::empty());
        r
    }
}

impl<'a, E: Endpoint + Pageable, C: Client, T> PagedIter<'a, E, C, T> {
    /// The next item: a buffered one if there is one; nothing once the last
    /// page is used up; otherwise the next page is fetched. A failed fetch is
    /// handed out as an error and changes nothing, so the next call asks for
    /// the same page again.
    pub fn next<F: Fn(&serde_json::Value) -> Result<Root<Vec<T>>, serde_json::Error>>(
        &mut self,
        decode: F,
        expected_type: &'static str,
    ) -> (r: Option<Result<T, ApiError<C::Error>>>)
        requires
            forall|v: &serde_json::Value| decode.requires((v,)),
        ensures
            final(self).endpoint_ref() == old(self).endpoint_ref(),
            final(self).client_ref() == old(self).client_ref(),
            old(self)@.buffered.len() > 0 ==> final(self)@ == popped(old(self)@).0 && r == lift::<
                T,
                ApiError<C::Error>,
            >(popped(old(self)@).1),
            old(self)@.buffered.len() == 0 && old(self)@.last ==> final(self)@ == old(self)@
                && r is None,
            old(self)@.buffered.len() == 0 && !old(self)@.last ==> exists|
                out: Result<Root<Vec<T>>, ApiError<C::Error>>,
            |
                {
                    let step = fetched(
                        old(self)@,
                        out->Ok_0.data@,
                        pagination_or_default(out->Ok_0.pagination).has_next_page,
                    );
                    &&& #[trigger] queried(
                        old(self).endpoint_ref(),
                        page_params(old(self)@.page),
                        decode,
                        expected_type,
                        out,
                    )
                    &&& match out {
                        Err(e) => r == Some(Err::<T, ApiError<C::Error>>(e)) && final(self)@ == old(
                            self,
                        )@,
                        Ok(_) => final(self)@ == step.0 && r == lift::<T, ApiError<C::Error>>(step.1),
                    }
                },
    {
        if self.current_page.len() > 0 {
            return match self.pop_buffered() {
                Some(x) => Some(Ok(x)),
                None => None,
            };
        }
        if self.last_page {
            return None;
        }
        let res = self.state.query(self.client, decode, expected_type);
        let ghost out = choose|out: Result<Root<Vec<T>>, ApiError<C::Error>>|
            #[trigger] queried(self.state.endpoint, self.state.params(), decode, expected_type, out)
                && res == page_of(out);
        assert(queried(old(self).endpoint_ref(), page_params(old(self)@.page), decode, expected_type, out));
        match res {
            Err(e) => Some(Err(e)),
            Ok((items, pagination)) => {
                let ghost s = items@;
                let ghost h = pagination.has_next_page;
                assert(s == out->Ok_0.data@);
                assert(h == pagination_or_default(out->Ok_0.pagination).has_next_page);
                let r = match self.accept_page(items, pagination) {
                    Some(x) => Some(Ok(x)),
                    None => None,
                };
                assert(final(self)@ == fetched(old(self)@, s, h).0);
                r
            },
        }
    }
}

/// One call of `next` against a server that answers every fetch, where page
/// `p` (from 1) is `pages[p - 1]`: its items and whether another page
/// follows. A page past the end is empty and the last.
pub open spec fn advance<T>(s: PageState<T>, pages: Seq<(Seq<T>, bool)>) -> (PageState<T>, Option<T>) {
    if s.buffered.len() > 0 {
        popped(s)
    } else if s.last {
        (s, None)
    } else if 1 <= s.page <= pages.len() {
        fetched(s, pages[s.page - 1].0, pages[s.page - 1].1)
    } else {
        fetched(s, Seq::empty(), false)
    }
}

/// The state after `k` calls of `next` against such a server, and what each
/// call handed out.
pub open spec fn run<T>(s: PageState<T>, pages: Seq<(Seq<T>, bool)>, k: nat) -> (PageState<T>, Seq<Option<T>>)
    decreases k,
{
    if k == 0 {
        (s, seq![])
    } else {
        let step = advance(s, pages);
        let rest = run(step.0, pages, (k - 1) as nat);
        (rest.0, seq![step.1] + rest.1)
    }
}

/// The items of all pages, in order.
pub open spec fn flatten<T>(pages: Seq<(Seq<T>, bool)>) -> Seq<T>
    decreases pages.len(),
{
    if pages.len() == 0 {
        seq![]
    } else {
        pages[0].0 + flatten(pages.drop_first())
    }
}

/// Items handed out one per call.
pub open spec fn as_yields<T>(items: Seq<T>) -> Seq<Option<T>> {
    items.map_values(|x: T| Some(x))
}

/// A server that splits its result set into pages: every page but the last
/// has items and announces a next page, the last does not, and there are
/// fewer pages than page numbers.
pub open spec fn well_paged<T>(pages: Seq<(Seq<T>, bool)>) -> bool {
    &&& 1 <= pages.len() < LAST_PAGE_NUMBER
    &&& forall|i: int| 0 <= i < pages.len() - 1 ==> (#[trigger] pages[i]).0.len() > 0 && pages[i].1
    &&& !pages.last().1
}

/// A fresh iterator: page 1 is fetched next and nothing is buffered.
pub open spec fn initial_state<T>() -> PageState<T> {
    PageState { page: 1, buffered: Seq::empty(), last: false }
}

/// An iterator that has fetched all `n` pages and handed out every item.
pub open spec fn finished_state<T>(n: nat) -> PageState<T> {
    PageState { page: n + 1, buffered: Seq::empty(), last: true }
}

proof fn lemma_drain<T>(s: PageState<T>, pages: Seq<(Seq<T>, bool)>, k: nat)
    ensures
        ({
            let c = PageState { page: s.page, buffered: Seq::<T>::empty(), last: s.last };
            run(s, pages, s.buffered.len() + k) == (run(c, pages, k).0, as_yields(s.buffered) + run(
                c,
                pages,
                k,
            ).1)
        }),
    decreases s.buffered.len(),
{
    let c = PageState { page: s.page, buffered: Seq::<T>::empty(), last: s.last };
    if s.buffered.len() == 0 {
        assert(s.buffered =~= Seq::<T>::empty());
        assert(as_yields(s.buffered) + run(c, pages, k).1 =~= run(c, pages, k).1);
    } else {
        let s1 = popped(s).0;
        assert(advance(s, pages) == popped(s));
        lemma_drain(s1, pages, k);
        assert((s.buffered.len() + k - 1) as nat == s1.buffered.len() + k);
        assert(PageState { page: s1.page, buffered: Seq::<T>::empty(), last: s1.last } == c);
        assert(seq![Some(s.buffered[0])] + (as_yields(s1.buffered) + run(c, pages, k).1) =~= as_yields(
            s.buffered,
        ) + run(c, pages, k).1);
    }
}

proof fn lemma_flatten_from<T>(pages: Seq<(Seq<T>, bool)>, p: int)
    requires
        0 <= p < pages.len(),
    ensures
        flatten(pages.subrange(p, pages.len() as int)) == pages[p].0 + flatten(
            pages.subrange(p + 1, pages.len() as int),
        ),
{
    let sub = pages.subrange(p, pages.len() as int);
    assert(sub.drop_first() =~= pages.subrange(p + 1, pages.len() as int));
    assert(sub[0] == pages[p]);
}

proof fn lemma_from_page<T>(pages: Seq<(Seq<T>, bool)>, p: nat)
    requires
        well_paged(pages),
        1 <= p <= pages.len(),
    ensures
        ({
            let rest = flatten(pages.subrange(p - 1, pages.len() as int));
            run(PageState { page: p, buffered: Seq::<T>::empty(), last: false }, pages, rest.len() + 1)
                == (finished_state::<T>(pages.len()), as_yields(rest).push(None))
        }),
    decreases pages.len() - p,
{
    let n = pages.len();
    let s = PageState { page: p, buffered: Seq::<T>::empty(), last: false };
    let items = pages[p - 1].0;
    let has_next = pages[p - 1].1;
    let later = flatten(pages.subrange(p as int, n as int));
    let rest = flatten(pages.subrange(p - 1, n as int));
    lemma_flatten_from(pages, p - 1);
    assert(rest == items + later);
    assert(advance(s, pages) == fetched(s, items, has_next));
    if p == n {
        assert(pages.subrange(p as int, n as int) =~= Seq::<(Seq<T>, bool)>::empty());
        assert(later =~= Seq::<T>::empty());
        assert(!has_next);
    } else {
        assert(items.len() > 0 && has_next);
    }
    if items.len() == 0 {
        assert(p == n);
        assert(rest =~= Seq::<T>::empty());
        let s1 = fetched(s, items, has_next).0;
        assert(s1 == finished_state::<T>(n)) by {
            assert(s1.buffered =~= Seq::<T>::empty());
        }
        assert(run(s1, pages, 0) == (s1, Seq::<Option<T>>::empty()));
        assert(as_yields(rest).push(None) =~= seq![None::<T>]);
    } else {
        let s1 = fetched(s, items, has_next).0;
        let c = PageState { page: p + 1, buffered: Seq::<T>::empty(), last: !has_next };
        let m = later.len() + 1;
        lemma_drain(s1, pages, m);
        assert(PageState { page: s1.page, buffered: Seq::<T>::empty(), last: s1.last } == c);
        assert((rest.len() + 1 - 1) as nat == s1.buffered.len() + m);
        if p < n {
            lemma_from_page(pages, p + 1);
            assert(c == PageState { page: (p + 1) as nat, buffered: Seq::<T>::empty(), last: false });
            assert(run(c, pages, m) == (finished_state::<T>(n), as_yields(later).push(None)));
        } else {
            assert(c == finished_state::<T>(n));
            assert(advance(c, pages) == (c, None::<T>));
            assert(run(c, pages, 0) == (c, Seq::<Option<T>>::empty()));
            assert(run(c, pages, 1) == (c, seq![None::<T>]));
            assert(as_yields(later).push(None) =~= seq![None::<T>]);
        }
        assert(seq![Some(items[0])] + (as_yields(items.drop_first()) + as_yields(later).push(None))
            =~= as_yields(rest).push(None));
    }
}

/// Iterating a well-paged server from the start hands out every item of its
/// pages in server order, then ends: one call more than there are items.
/// By then each page has been fetched exactly once (the page counter moves
/// once per fetch), and a further call ends again without fetching.
pub proof fn lemma_paging_yields_all<T>(pages: Seq<(Seq<T>, bool)>)
    requires
        well_paged(pages),
    ensures
        run(initial_state::<T>(), pages, flatten(pages).len() + 1) == (
            finished_state::<T>(pages.len()),
            as_yields(flatten(pages)).push(None),
        ),
        advance(finished_state::<T>(pages.len()), pages) == (finished_state::<T>(pages.len()), None::<T>),
{
    lemma_from_page(pages, 1);
    assert(pages.subrange(0, pages.len() as int) =~= pages);
}

/// The call that receives an empty page ends the iteration at once; where
/// that page was the last, every later call ends too, without fetching.
pub proof fn lemma_empty_page_ends<T>(s: PageState<T>, has_next: bool, pages: Seq<(Seq<T>, bool)>)
    requires
        s.page < LAST_PAGE_NUMBER,
    ensures
        fetched(s, Seq::<T>::empty(), has_next).1 is None,
        fetched(s, Seq::<T>::empty(), has_next).0.buffered.len() == 0,
        !has_next ==> advance(fetched(s, Seq::<T>::empty(), has_next).0, pages) == (
            fetched(s, Seq::<T>::empty(), has_next).0,
            None::<T>,
        ),
{
}

} // verus!
