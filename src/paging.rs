//! Offset-cursor pagination over a remote collection.
//!
//! The remote service only hands out bounded pages. A `Paginator` decides
//! which page to ask for next and accumulates what comes back; the caller
//! performs each fetch and feeds the page in. The sequence ends at the first
//! empty page, and only there.

use vstd::arithmetic::div_mod::{lemma_fundamental_div_mod, lemma_mod_pos_bound};
use vstd::arithmetic::mul::lemma_mul_inequality;
use vstd::prelude::*;

verus! {

/// Number of entries asked for in each page request.
pub const PAGE_SIZE: usize = 500;

/// The next page to fetch: `limit` records starting at offset `skip`.
#[derive(Clone, Copy, Debug, PartialEq, Eq, Structural)]
pub struct PageRequest {
    pub skip: usize,
    pub limit: usize,
}

/// Abstract state of a paginator.
pub struct PagerState<T> {
    /// Offset of the next request: the number of records received so far.
    pub skip: nat,
    /// Requested page size.
    pub limit: nat,
    /// Every record received, in the order received.
    pub entries: Seq<T>,
    /// Whether the empty terminating page has been seen.
    pub done: bool,
}

impl<T> PagerState<T> {
    /// State before the first request.
    pub open spec fn initial(limit: nat) -> PagerState<T> {
        PagerState { skip: 0, limit, entries: Seq::empty(), done: false }
    }

    /// State after receiving `page` in reply to the current request.
    /// An empty page ends the sequence; any other page advances the cursor by
    /// the number of records it actually holds.
    pub open spec fn accept(self, page: Seq<T>) -> PagerState<T> {
        if self.done {
            self
        } else if page.len() == 0 {
            PagerState { done: true, ..self }
        } else {
            PagerState { skip: self.skip + page.len(), entries: self.entries + page, ..self }
        }
    }

    /// State after receiving each of `pages` in turn.
    pub open spec fn accept_all(self, pages: Seq<Seq<T>>) -> PagerState<T>
        decreases pages.len(),
    {
        if pages.len() == 0 {
            self
        } else {
            self.accept_all(pages.drop_last()).accept(pages.last())
        }
    }

    /// The cursor always equals the number of records accumulated.
    pub open spec fn wf(self) -> bool {
        self.skip == self.entries.len() && self.limit > 0
    }
}

/// Total number of records over a sequence of pages.
pub open spec fn total_len<T>(pages: Seq<Seq<T>>) -> nat
    decreases pages.len(),
{
    if pages.len() == 0 {
        0
    } else {
        total_len(pages.drop_last()) + pages.last().len()
    }
}

/// The pages joined end to end.
pub open spec fn joined<T>(pages: Seq<Seq<T>>) -> Seq<T>
    decreases pages.len(),
{
    if pages.len() == 0 {
        Seq::empty()
    } else {
        joined(pages.drop_last()) + pages.last()
    }
}

/// The page that a remote collection holding `records` serves for a request
/// of `limit` records at offset `skip`.
pub open spec fn served<T>(records: Seq<T>, skip: nat, limit: nat) -> Seq<T> {
    let n = records.len();
    let lo = if skip <= n { skip } else { n };
    let hi = if skip + limit <= n { skip + limit } else { n };
    records.subrange(lo as int, hi as int)
}

/// Paginator state after `k` request rounds against a remote collection
/// holding `records`. Once the empty page has arrived, no further request is
/// issued, so the number of fetch calls made is the first `k` at which the
/// state is done.
pub open spec fn driven<T>(records: Seq<T>, limit: nat, k: nat) -> PagerState<T>
    decreases k,
{
    if k == 0 {
        PagerState::initial(limit)
    } else {
        let s = driven(records, limit, (k - 1) as nat);
        s.accept(served(records, s.skip, s.limit))
    }
}

/// Number of fetch calls needed for `n` records with pages of `p`: one per
/// full page, one for a trailing partial page, and one for the empty page
/// that ends the sequence.
pub open spec fn page_calls(n: nat, p: nat) -> nat {
    if n % p == 0 {
        n / p + 1
    } else {
        n / p + 2
    }
}

proof fn lemma_full_pages<T>(records: Seq<T>, limit: nat, j: nat)
    requires
        limit > 0,
        j * limit <= records.len(),
    ensures
        driven(records, limit, j) == (PagerState {
            skip: j * limit,
            limit,
            entries: records.subrange(0, (j * limit) as int),
            done: false,
        }),
    decreases j,
{
    if j == 0 {
        assert(j * limit == 0) by (nonlinear_arith)
            requires
                j == 0,
        ;
        assert(records.subrange(0, 0) =~= Seq::<T>::empty());
    } else {
        let i = (j - 1) as nat;
        assert(i * limit + limit == j * limit) by (nonlinear_arith)
            requires
                i == j - 1,
        ;
        lemma_full_pages(records, limit, i);
        let s = driven(records, limit, i);
        let page = served(records, s.skip, s.limit);
        assert(page =~= records.subrange((i * limit) as int, (j * limit) as int));
        assert(records.subrange(0, (i * limit) as int) + page =~= records.subrange(
            0,
            (j * limit) as int,
        ));
        assert(page.len() == limit);
        assert(s.accept(page).skip == j * limit);
    }
}

/// Pagination is complete: against a collection of `n` records with page
/// size `p`, the fetcher stops after exactly `page_calls(n, p)` calls and has
/// then received every record once, in the collection's order. When `n` is a
/// multiple of `p` (zero included) that is `n / p + 1` calls, the last one
/// returning the empty page; for `n == 0` it is the single empty page.
pub proof fn lemma_pagination_complete<T>(records: Seq<T>, limit: nat)
    requires
        limit > 0,
    ensures
        driven(records, limit, page_calls(records.len(), limit)).done,
        driven(records, limit, page_calls(records.len(), limit)).entries == records,
        forall|j: nat|
            j < page_calls(records.len(), limit) ==> !(#[trigger] driven(records, limit, j)).done,
        records.len() % limit == 0 ==> page_calls(records.len(), limit) == records.len() / limit
            + 1,
        records.len() == 0 ==> page_calls(records.len(), limit) == 1,
{
    let n = records.len();
    let q = n / limit;
    let r = n % limit;
    lemma_fundamental_div_mod(n as int, limit as int);
    lemma_mod_pos_bound(n as int, limit as int);
    assert(q * limit <= n) by (nonlinear_arith)
        requires
            n == limit * q + r,
            r >= 0,
    ;
    lemma_full_pages(records, limit, q);
    assert forall|j: nat| j <= q implies !(#[trigger] driven(records, limit, j)).done by {
        lemma_mul_inequality(j as int, q as int, limit as int);
        lemma_full_pages(records, limit, j);
    }
    let s = driven(records, limit, q);
    assert(q * limit + limit > n) by (nonlinear_arith)
        requires
            n == limit * q + r,
            r < limit,
    ;
    if r == 0 {
        assert(served(records, s.skip, s.limit).len() == 0);
        assert(records.subrange(0, n as int) =~= records);
    } else {
        let page = served(records, s.skip, s.limit);
        assert(page =~= records.subrange((q * limit) as int, n as int));
        assert(records.subrange(0, (q * limit) as int) + page =~= records);
        let t = driven(records, limit, q + 1);
        assert(t.skip == n && !t.done);
        assert(served(records, t.skip, t.limit).len() == 0);
        assert forall|j: nat| j < q + 2 implies !(#[trigger] driven(records, limit, j)).done by {
            if j <= q {
                lemma_mul_inequality(j as int, q as int, limit as int);
                lemma_full_pages(records, limit, j);
            }
        }
    }
    if n == 0 {
        assert(q == 0);
    }
}

/// The cursor advances by what was returned, not by what was asked for:
/// after any run of non-empty pages of whatever sizes, the next offset equals
/// the total number of records returned so far, and those records are kept
/// in the order received.
pub proof fn lemma_cursor_is_total_received<T>(limit: nat, pages: Seq<Seq<T>>)
    requires
        limit > 0,
        forall|i: int| 0 <= i < pages.len() ==> #[trigger] pages[i].len() > 0,
    ensures
        PagerState::<T>::initial(limit).accept_all(pages).skip == total_len(pages),
        PagerState::<T>::initial(limit).accept_all(pages).entries == joined(pages),
        !PagerState::<T>::initial(limit).accept_all(pages).done,
        PagerState::<T>::initial(limit).accept_all(pages).limit == limit,
    decreases pages.len(),
{
    if pages.len() > 0 {
        let p = pages.drop_last();
        assert forall|i: int| 0 <= i < p.len() implies #[trigger] p[i].len() > 0 by {
            assert(p[i] == pages[i]);
        }
        lemma_cursor_is_total_received(limit, p);
        assert(pages.last() == pages[pages.len() - 1]);
    }
}

/// Drives a paginator and accumulates the pages it receives.
pub struct Paginator<T> {
    skip: usize,
    limit: usize,
    entries: Vec<T>,
    done: bool,
}

impl<T> View for Paginator<T> {
    type V = PagerState<T>;

    closed spec fn view(&self) -> PagerState<T> {
        PagerState {
            skip: self.skip as nat,
            limit: self.limit as nat,
            entries: self.entries@,
            done: self.done,
        }
    }
}

impl<T> Paginator<T> {
    pub open spec fn wf(&self) -> bool {
        self@.wf()
    }

    /// A paginator that has issued no request yet.
    pub fn new(limit: usize) -> (r: Paginator<T>)
        requires
            limit > 0,
        ensures
            r@ == PagerState::<T>::initial(limit as nat),
            r.wf(),
    {
        Paginator { skip: 0, limit, entries: Vec::new(), done: false }
    }

    /// The request to issue next, or `None` once the empty page has arrived.
    pub fn next_request(&self) -> (r: Option<PageRequest>)
        ensures
            self@.done ==> r is None,
            !self@.done ==> r == Some(
                PageRequest { skip: self@.skip as usize, limit: self@.limit as usize },
            ),
    {
        if self.done {
            None
        } else {
            Some(PageRequest { skip: self.skip, limit: self.limit })
        }
    }

    pub fn is_done(&self) -> (r: bool)
        ensures
            r == self@.done,
    {
        self.done
    }

    /// Records the reply to the current request.
    pub fn accept_page(&mut self, page: Vec<T>)
        requires
            old(self).wf(),
            old(self)@.skip + page@.len() <= usize::MAX,
        ensures
            final(self)@ == old(self)@.accept(page@),
            final(self).wf(),
    {
        if self.done {
            return;
        }
        let n = page.len();
        if n == 0 {
            self.done = true;
        } else {
            let mut page = page;
            self.skip = self.skip + n;
            self.entries.append(&mut page);
        }
        proof {
            let ghost s = old(self)@;
            if !s.done && n > 0 {
                assert(self@.entries =~= s.entries + page@);
            }
        }
    }

    /// Every record received so far, in the order received.
    pub fn entries(&self) -> (r: &Vec<T>)
        ensures
            r@ == self@.entries,
    {
        &self.entries
    }

    /// Consumes the paginator and hands back the accumulated records.
    pub fn into_entries(self) -> (r: Vec<T>)
        ensures
            r@ == self@.entries,
    {
        self.entries
    }
}

} // verus!
