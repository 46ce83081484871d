//! The pager: a bounded multi-page fetch accumulator.
//!
//! A pager is created with a total item budget and an optional starting
//! cursor.  It repeatedly names the next page request — the per-page
//! limit clamped to the service maximum of 100 — and consumes the page
//! that came back, appending its items in server order and adopting its
//! cursor.  An empty page means "no more items currently available" and
//! ends the run with everything accumulated so far; it is not an error.

use vstd::prelude::*;

verus! {

/// The view of an optional cursor.
pub open spec fn opt_text(o: Option<String>) -> Option<Seq<char>> {
    match o {
        Some(s) => Some(s@),
        None => None,
    }
}

/// One page as the service returned it: the items in server order and
/// the cursor to resume past them, if the service issued one.
#[derive(Debug)]
pub struct Page<T> {
    pub items: Vec<T>,
    pub cursor: Option<String>,
}

/// One page request: how many items to ask for and where to resume.
#[derive(Debug)]
pub struct PageRequest {
    pub limit: usize,
    pub cursor: Option<String>,
}

/// The pager state.  `limit_total` is the budget it was created with;
/// `full_pages` records whether every page consumed so far filled its
/// request, the regime in which the page-count bound below is exact.
pub struct Pager<T> {
    pub items: Vec<T>,
    pub remaining: usize,
    pub cursor: Option<String>,
    pub pages: usize,
    pub done: bool,
    pub limit_total: Ghost<nat>,
    pub full_pages: Ghost<bool>,
}

impl<T> Pager<T> {
    /// The invariant every pager run maintains.
    pub open spec fn wf(self) -> bool {
        &&& self.limit_total@ <= usize::MAX
        &&& self.items@.len() + self.remaining == self.limit_total@
        &&& (!self.done ==> self.pages <= self.items@.len())
        &&& (self.done ==> self.pages <= self.items@.len() + 1)
        &&& (self.full_pages@ ==> (self.pages == 0 || (self.pages - 1) * 100 < self.limit_total@))
        &&& ((self.full_pages@ && !self.done && self.remaining > 0) ==> self.items@.len()
            == self.pages * 100)
    }

    /// A fresh pager with the given total budget and starting cursor.
    pub fn new(limit: usize, cursor: Option<String>) -> (p: Pager<T>)
        ensures
            p.wf(),
            p.items@ == Seq::<T>::empty(),
            p.remaining == limit,
            p.cursor == cursor,
            p.pages == 0,
            !p.done,
            p.limit_total@ == limit,
            p.full_pages@,
    {
        Pager {
            items: Vec::new(),
            remaining: limit,
            cursor,
            pages: 0,
            done: false,
            limit_total: Ghost(limit as nat),
            full_pages: Ghost(true),
        }
    }

    /// The next page request, or nothing when the run is over: the
    /// budget is spent or an empty page ended it.  The per-page limit
    /// is the remaining budget clamped to the service maximum of 100.
    pub fn next_request(&self) -> (r: Option<PageRequest>)
        ensures
            (r is Some) == (!self.done && self.remaining > 0),
            r matches Some(pr) ==> pr.limit == (if self.remaining < 100 {
                self.remaining as int
            } else {
                100int
            }) && opt_text(pr.cursor) == opt_text(self.cursor),
    {
        if self.done || self.remaining == 0 {
            None
        } else {
            let limit = if self.remaining < 100 {
                self.remaining
            } else {
                100
            };
            let cursor = match &self.cursor {
                Some(c) => Some(c.clone()),
                None => None,
            };
            Some(PageRequest { limit, cursor })
        }
    }

    /// Consumes one page.  A nonempty page appends its items in server
    /// order, spends that much budget and adopts the page's cursor; an
    /// empty page ends the run, leaving the last known cursor in place.
    /// The result says whether another page request is owed.
    pub fn on_page(&mut self, page: Page<T>) -> (more: bool)
        requires
            old(self).wf(),
            !old(self).done,
            old(self).remaining > 0,
            page.items@.len() <= old(self).remaining,
        ensures
            final(self).wf(),
            final(self).items@ == old(self).items@ + page.items@,
            final(self).pages == old(self).pages + 1,
            final(self).limit_total == old(self).limit_total,
            more == !final(self).done,
            page.items@.len() == 0 ==> final(self).done && final(self).cursor == old(self).cursor
                && final(self).remaining == old(self).remaining && final(self).full_pages
                == old(self).full_pages,
            page.items@.len() > 0 ==> final(self).remaining == old(self).remaining
                - page.items@.len() && final(self).cursor == page.cursor && final(self).done == (
            final(self).remaining == 0) && final(self).full_pages@ == (old(self).full_pages@
                && page.items@.len() == (if old(self).remaining < 100 {
                old(self).remaining as int
            } else {
                100int
            })),
    {
        let ghost requested: int = if self.remaining < 100 {
            self.remaining as int
        } else {
            100int
        };
        let mut page = page;
        let count = page.items.len();
        if count == 0 {
            self.pages = self.pages + 1;
            self.done = true;
            proof {
                assert(final(self).items@ =~= old(self).items@ + page.items@);
            }
            false
        } else {
            self.remaining = self.remaining - count;
            self.cursor = page.cursor;
            self.items.append(&mut page.items);
            self.pages = self.pages + 1;
            proof {
                self.full_pages@ = old(self).full_pages@ && count == requested;
            }
            if self.remaining == 0 {
                self.done = true;
                false
            } else {
                true
            }
        }
    }

    /// Hands back everything a run accumulated: the items in server
    /// order and the cursor to resume past them.
    pub fn into_results(self) -> (r: (Vec<T>, Option<String>))
        ensures
            r.0 == self.items,
            r.1 == self.cursor,
    {
        (self.items, self.cursor)
    }
}

/// A pager never holds more items than the budget it was created with,
/// whatever pages the service returned.
pub proof fn lemma_pager_items_bounded<T>(p: Pager<T>)
    requires
        p.wf(),
    ensures
        p.items@.len() <= p.limit_total@,
{
}

/// As long as the service fills every page it returns, a run with
/// budget `L` consumes at most `⌈L/100⌉` page requests.
pub proof fn lemma_pager_page_bound<T>(p: Pager<T>)
    requires
        p.wf(),
        p.full_pages@,
    ensures
        p.pages <= (p.limit_total@ + 99) / 100,
{
    if p.pages > 0 {
        assert((p.pages - 1) * 100 < p.limit_total@);
        assert(p.pages * 100 <= p.limit_total@ + 99) by {
            assert(p.pages * 100 == (p.pages - 1) * 100 + 100) by (nonlinear_arith);
        }
        vstd::arithmetic::div_mod::lemma_div_is_ordered(
            (p.pages as int) * 100,
            p.limit_total@ as int + 99,
            100,
        );
        vstd::arithmetic::div_mod::lemma_div_multiples_vanish(p.pages as int, 100);
        assert(100 * (p.pages as int) == (p.pages as int) * 100) by (nonlinear_arith);
    }
}

} // verus!
