//! A pull-driven cursor over a listing that the server reveals one page at a time.
//!
//! The cursor decides; its driver does the fetching. Each `pull` answers with the
//! next item, with a request to fetch the page at the current checkpoint, or with
//! the end of the sequence. The driver hands a fetched page back through `deliver`.
use vstd::prelude::*;

verus! {

/// What one pull of the cursor asks of its driver.
pub enum PullStep<T> {
    /// Fetch the page that starts at this many consumed items, then `deliver` it.
    Fetch(u32),
    /// The next item of the sequence.
    Item(T),
    /// The sequence is exhausted.
    Done,
}

/// The mathematical state of a cursor.
pub struct PageModel<T> {
    /// Items of the last page that were not handed out yet, front first.
    pub buffer: Seq<T>,
    /// Whether a page has arrived.
    pub init: bool,
    /// Items handed out so far.
    pub count: u32,
    /// The total that the server declared last (0 until a page arrives).
    pub total: u32,
}

/// A cursor that has fetched nothing.
pub open spec fn fresh_model<T>() -> PageModel<T> {
    PageModel { buffer: Seq::empty(), init: false, count: 0, total: 0 }
}

/// What a pull on state `s` answers.
pub open spec fn pull_step<T>(s: PageModel<T>) -> PullStep<T> {
    if s.buffer.len() > 0 {
        PullStep::Item(s.buffer[0])
    } else if !s.init || s.count < s.total {
        PullStep::Fetch(s.count)
    } else {
        PullStep::Done
    }
}

/// The state after a pull on state `s`: an item leaves the buffer and is counted.
/// The count stops at the largest `u32`.
pub open spec fn pull_state<T>(s: PageModel<T>) -> PageModel<T> {
    if s.buffer.len() > 0 {
        PageModel {
            buffer: s.buffer.drop_first(),
            count: if s.count < u32::MAX { (s.count + 1) as u32 } else { s.count },
            ..s
        }
    } else {
        s
    }
}

/// The state after a fetched page with declared `total` arrives: the buffer is
/// replaced by the page and the total by the declared one.
pub open spec fn deliver_state<T>(s: PageModel<T>, items: Seq<T>, total: u32) -> PageModel<T> {
    PageModel { buffer: items, init: true, count: s.count, total }
}

/// The total a cursor reports without fetching: known once a page has arrived.
pub open spec fn known_total<T>(s: PageModel<T>) -> Option<u32> {
    if s.init { Some(s.total) } else { None }
}

/// Pulls until the sequence ends, answering the `i`-th fetch with `pages[i]` and
/// the declared `total`. Returns the items handed out, the final state, and the
/// number of fetches made. Stops early when a fetch is asked for and no page is left.
pub open spec fn drain<T>(s: PageModel<T>, pages: Seq<Seq<T>>, total: u32) -> (Seq<T>, PageModel<T>, nat)
    decreases pages.len(), s.buffer.len(),
{
    if s.buffer.len() > 0 {
        let r = drain(pull_state(s), pages, total);
        (seq![s.buffer[0]] + r.0, r.1, r.2)
    } else if (!s.init || s.count < s.total) && pages.len() > 0 {
        let r = drain(deliver_state(s, pages[0], total), pages.drop_first(), total);
        (r.0, r.1, r.2 + 1)
    } else {
        (Seq::empty(), s, 0)
    }
}

/// Items are handed out in the order they arrive: within a page in the page's own
/// order, and pages in the order they were fetched. Whatever the pages and totals,
/// what a cursor hands out is a prefix of its buffer followed by the fetched pages.
pub proof fn lemma_order_preserved<T>(s: PageModel<T>, pages: Seq<Seq<T>>, total: u32)
    ensures
        drain(s, pages, total).0.is_prefix_of(s.buffer + pages.flatten()),
    decreases pages.len(), s.buffer.len(),
{
    let r = drain(s, pages, total);
    if s.buffer.len() > 0 {
        let s2 = pull_state(s);
        lemma_order_preserved(s2, pages, total);
        let rest = drain(s2, pages, total).0;
        assert(s2.buffer + pages.flatten() =~= (s.buffer + pages.flatten()).drop_first());
        assert(r.0 =~= (s.buffer + pages.flatten()).subrange(0, r.0.len() as int));
    } else if (!s.init || s.count < s.total) && pages.len() > 0 {
        let s2 = deliver_state(s, pages[0], total);
        lemma_order_preserved(s2, pages.drop_first(), total);
        assert(s2.buffer + pages.drop_first().flatten() =~= s.buffer + pages.flatten());
    } else {
        assert(r.0 =~= (s.buffer + pages.flatten()).subrange(0, 0));
    }
}

proof fn lemma_drain_exact<T>(s: PageModel<T>, pages: Seq<Seq<T>>, n: u32)
    requires
        s.count + s.buffer.len() + pages.flatten().len() == n,
        s.init ==> s.total == n,
        !s.init ==> s.buffer.len() == 0 && pages.len() > 0,
    ensures
        drain(s, pages, n).0 == s.buffer + pages.flatten(),
        drain(s, pages, n).1.count == n,
        drain(s, pages, n).1.total == n,
        drain(s, pages, n).1.init,
        drain(s, pages, n).1.buffer.len() == 0,
    decreases pages.len(), s.buffer.len(),
{
    let r = drain(s, pages, n);
    if s.buffer.len() > 0 {
        let s2 = pull_state(s);
        lemma_drain_exact(s2, pages, n);
        assert(seq![s.buffer[0]] + (s2.buffer + pages.flatten()) =~= s.buffer + pages.flatten());
    } else if !s.init || s.count < s.total {
        assert(pages.len() > 0);
        let s2 = deliver_state(s, pages[0], n);
        lemma_drain_exact(s2, pages.drop_first(), n);
        assert(s2.buffer + pages.drop_first().flatten() =~= s.buffer + pages.flatten());
    } else {
        assert(s.buffer + pages.flatten() =~= Seq::<T>::empty());
    }
}

/// When every fetch declares the same total `n` and the pages hold `n` items in
/// all, however they are split, pulling a fresh cursor until it ends hands out
/// exactly those items, one fetch per page, and leaves the count at `n`, with
/// the next pull answering that the sequence is exhausted.
pub proof fn lemma_pagination_total<T>(pages: Seq<Seq<T>>, n: u32)
    requires
        pages.len() > 0,
        pages.flatten().len() == n,
    ensures
        drain(fresh_model::<T>(), pages, n).0 == pages.flatten(),
        drain(fresh_model::<T>(), pages, n).0.len() == n,
        drain(fresh_model::<T>(), pages, n).1.count == n,
        pull_step(drain(fresh_model::<T>(), pages, n).1) == PullStep::<T>::Done,
{
    lemma_drain_exact(fresh_model::<T>(), pages, n);
    assert(Seq::<T>::empty() + pages.flatten() =~= pages.flatten());
}

/// A listing whose first fetch declares a total of 0 and brings no items ends
/// after that one fetch, having handed out nothing; no pages after it are asked for.
pub proof fn lemma_zero_total_ends<T>(pages: Seq<Seq<T>>)
    requires
        pages.len() > 0,
        pages[0].len() == 0,
    ensures
        drain(fresh_model::<T>(), pages, 0).0.len() == 0,
        drain(fresh_model::<T>(), pages, 0).2 == 1,
        pull_step(drain(fresh_model::<T>(), pages, 0).1) == PullStep::<T>::Done,
{
    let s1 = deliver_state(fresh_model::<T>(), pages[0], 0);
    assert(drain(s1, pages.drop_first(), 0) == (Seq::<T>::empty(), s1, 0nat));
}

/// The total is learnt from one fetch: a fresh cursor knows no total, so asking
/// for it fetches once; once a page has arrived the total is known and stays
/// known through every later pull, so asking again fetches nothing.
pub proof fn lemma_total_fetched_once<T>(s: PageModel<T>, items: Seq<T>, n: u32)
    ensures
        known_total(fresh_model::<T>()) == None::<u32>,
        pull_step(fresh_model::<T>()) == PullStep::<T>::Fetch(0),
        known_total(deliver_state(s, items, n)) == Some(n),
        s.init ==> known_total(pull_state(s)) == known_total(s),
        s.init ==> known_total(s).is_some(),
{
}

/// The count of handed-out items never goes down: not by a pull, and not by a
/// delivered page.
pub proof fn lemma_count_never_decreases<T>(s: PageModel<T>, items: Seq<T>, total: u32)
    ensures
        pull_state(s).count >= s.count,
        deliver_state(s, items, total).count == s.count,
        s.buffer.len() > 0 && s.count < u32::MAX ==> pull_state(s).count == s.count + 1,
{
}

/// A cursor over a paged listing, with the query that each fetch is made with.
pub struct Pagination<T> {
    data: Vec<T>,
    init: bool,
    count: u32,
    total: u32,
    query: Vec<(String, String)>,
}

impl<T> View for Pagination<T> {
    type V = PageModel<T>;

    closed spec fn view(&self) -> PageModel<T> {
        PageModel { buffer: self.data@, init: self.init, count: self.count, total: self.total }
    }
}

impl<T> Pagination<T> {
    /// The query that every fetch is made with.
    pub closed spec fn query_spec(&self) -> Seq<(String, String)> {
        self.query@
    }

    /// A cursor that has fetched nothing, over the listing that `query_args` selects.
    pub fn new(query_args: Vec<(String, String)>) -> (r: Self)
        ensures
            r@ == fresh_model::<T>(),
            r.query_spec() == query_args@,
    {
        Pagination { data: Vec::new(), init: false, count: 0, total: 0, query: query_args }
    }

    /// Advances the cursor by one pull.
    pub fn pull(&mut self) -> (r: PullStep<T>)
        ensures
            r == pull_step(old(self)@),
            final(self)@ == pull_state(old(self)@),
            final(self).query_spec() == old(self).query_spec(),
    {
        if self.data.len() > 0 {
            let item = self.data.remove(0);
            if self.count < u32::MAX {
                self.count = self.count + 1;
            }
            PullStep::Item(item)
        } else if !self.init || self.count < self.total {
            PullStep::Fetch(self.count)
        } else {
            PullStep::Done
        }
    }

    /// Takes in a fetched page and the total that the server declared with it.
    pub fn deliver(&mut self, items: Vec<T>, total: u32)
        ensures
            final(self)@ == deliver_state(old(self)@, items@, total),
            final(self).query_spec() == old(self).query_spec(),
    {
        self.data = items;
        self.total = total;
        self.init = true;
    }

    /// The declared total, once a page has arrived; `None` asks the driver to fetch
    /// the page at the current checkpoint and `deliver` it, without pulling an item.
    pub fn total(&self) -> (r: Option<u32>)
        ensures
            r == known_total(self@),
    {
        if self.init { Some(self.total) } else { None }
    }

    /// How many items were handed out.
    pub fn count(&self) -> (r: u32)
        ensures
            r == self@.count,
    {
        self.count
    }

    /// The query that every fetch is made with.
    pub fn query(&self) -> (r: &Vec<(String, String)>)
        ensures
            r@ == self.query_spec(),
    {
        &self.query
    }
}

} // verus!
