use vstd::prelude::*;

verus! {

/// Where a paginated fetch stands: the number of the next page to ask for,
/// the items gathered so far, and whether an empty page has ended it.
pub struct PagerView<T> {
    pub next_page: nat,
    pub items: Seq<T>,
    pub finished: bool,
}

/// Walks a paginated resource page by page, from page 1 up, and gathers the
/// items of every page until the first empty one.
///
/// The pager performs no request itself: it names the page to ask for, and
/// the caller hands each page's items back.
pub struct Pager<T> {
    next_page: u64,
    items: Vec<T>,
    finished: bool,
}

/// The state before any page was asked for.
pub open spec fn initial_pager<T>() -> PagerView<T> {
    PagerView { next_page: 1, items: Seq::empty(), finished: false }
}

/// The state after the page that was asked for came back holding `batch`.
pub open spec fn receive_page<T>(v: PagerView<T>, batch: Seq<T>) -> PagerView<T> {
    if batch.len() == 0 {
        PagerView { finished: true, ..v }
    } else {
        PagerView { next_page: v.next_page + 1, items: v.items + batch, finished: false }
    }
}

/// The state after the pages in `pages` came back one by one; pages that
/// arrive after the fetch has finished are never asked for.
pub open spec fn receive_pages<T>(v: PagerView<T>, pages: Seq<Seq<T>>) -> PagerView<T>
    decreases pages.len(),
{
    if pages.len() == 0 || v.finished {
        v
    } else {
        receive_pages(receive_page(v, pages[0]), pages.drop_first())
    }
}

/// How many page requests have been made to reach this state.
pub open spec fn requests_made<T>(v: PagerView<T>) -> nat {
    if v.finished {
        v.next_page
    } else {
        (v.next_page - 1) as nat
    }
}

impl<T> View for Pager<T> {
    type V = PagerView<T>;

    closed spec fn view(&self) -> PagerView<T> {
        PagerView { next_page: self.next_page as nat, items: self.items@, finished: self.finished }
    }
}

impl<T> Pager<T> {
    /// A pager that will ask for page 1 first.
    pub fn new() -> (p: Pager<T>)
        ensures
            p@ == initial_pager::<T>(),
    {
        let p = Pager { next_page: 1, items: Vec::new(), finished: false };
        assert(p@.items =~= Seq::<T>::empty());
        p
    }

    /// The page to ask for next, or `None` once an empty page has ended the
    /// fetch.
    pub fn next_request(&self) -> (r: Option<u64>)
        ensures
            match r {
                Some(n) => !self@.finished && n as nat == self@.next_page,
                None => self@.finished,
            },
    {
        if self.finished {
            None
        } else {
            Some(self.next_page)
        }
    }

    /// Whether the caller should wait out the pacing interval before asking
    /// for the next page: true between consecutive requests, false before the
    /// first one and after the last.
    pub fn pause_before_request(&self) -> (r: bool)
        ensures
            r == (!self@.finished && self@.next_page > 1),
    {
        !self.finished && self.next_page > 1
    }

    /// Takes in the items of the page that was asked for. An empty page ends
    /// the fetch; any other is appended in the order given.
    pub fn receive(&mut self, batch: Vec<T>)
        requires
            !old(self)@.finished,
            old(self)@.next_page < u64::MAX,
        ensures
            final(self)@ == receive_page(old(self)@, batch@),
    {
        if batch.len() == 0 {
            self.finished = true;
        } else {
            let mut batch = batch;
            self.items.append(&mut batch);
            self.next_page = self.next_page + 1;
        }
    }

    /// The gathered items, once the fetch has finished; `None` before, so that
    /// a partial list is never handed out.
    pub fn into_items(self) -> (r: Option<Vec<T>>)
        ensures
            match r {
                Some(items) => self@.finished && items@ == self@.items,
                None => !self@.finished,
            },
    {
        if self.finished {
            Some(self.items)
        } else {
            None
        }
    }
}

proof fn lemma_receive_pages_from<T>(v: PagerView<T>, pages: Seq<Seq<T>>)
    requires
        !v.finished,
        pages.len() >= 1,
        pages.last().len() == 0,
        forall|i: int| 0 <= i < pages.len() - 1 ==> #[trigger] pages[i].len() > 0,
    ensures
        receive_pages(v, pages) == (PagerView {
            next_page: (v.next_page + pages.len() - 1) as nat,
            items: v.items + pages.drop_last().flatten(),
            finished: true,
        }),
    decreases pages.len(),
{
    if pages.len() == 1 {
        assert(pages.drop_last() =~= Seq::<Seq<T>>::empty());
        assert(v.items + Seq::<Seq<T>>::empty().flatten() =~= v.items);
        assert(receive_pages(receive_page(v, pages[0]), pages.drop_first()) == receive_page(v, pages[0]));
    } else {
        let w = receive_page(v, pages[0]);
        let rest = pages.drop_first();
        assert forall|i: int| 0 <= i < rest.len() - 1 implies #[trigger] rest[i].len() > 0 by {
            assert(rest[i] == pages[i + 1]);
        }
        lemma_receive_pages_from(w, rest);
        assert(pages.drop_last().drop_first() =~= rest.drop_last());
        assert(pages.drop_last().first() == pages[0]);
        assert(pages.drop_last().flatten() == pages[0] + rest.drop_last().flatten());
        assert(v.items + pages[0] + rest.drop_last().flatten() =~= v.items + (pages[0]
            + rest.drop_last().flatten()));
    }
}

/// A fetch whose pages come back non-empty up to a final empty one yields
/// every item of those pages in server order, having asked for exactly as
/// many pages as came back, empty one included.
pub proof fn lemma_fetch_stops_at_empty_page<T>(pages: Seq<Seq<T>>)
    requires
        pages.len() >= 1,
        pages.last().len() == 0,
        forall|i: int| 0 <= i < pages.len() - 1 ==> #[trigger] pages[i].len() > 0,
    ensures
        receive_pages(initial_pager::<T>(), pages).finished,
        receive_pages(initial_pager::<T>(), pages).items == pages.drop_last().flatten(),
        requests_made(receive_pages(initial_pager::<T>(), pages)) == pages.len(),
{
    lemma_receive_pages_from(initial_pager::<T>(), pages);
    assert(Seq::<T>::empty() + pages.drop_last().flatten() =~= pages.drop_last().flatten());
}

} // verus!
