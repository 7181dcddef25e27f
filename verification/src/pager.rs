use vstd::prelude::*;

verus! {

/// Which of `total` pages is shown.
#[derive(Clone, Copy, PartialEq, Eq, Structural, Debug)]
pub struct Pager {
    pub current: u16,
    pub total: u16,
}

/// The last page index of `total` pages (0 when there are none).
pub open spec fn last_page(total: u16) -> u16 {
    if total > 0 {
        (total - 1) as u16
    } else {
        0
    }
}

impl Pager {
    /// The current page is a page.
    pub open spec fn wf(self) -> bool {
        self.current <= last_page(self.total)
    }

    pub fn new(total: u16) -> (r: Self)
        ensures
            r == (Pager { current: 0, total }),
            r.wf(),
    {
        Pager { current: 0, total }
    }

    pub fn single_page() -> (r: Self)
        ensures
            r == (Pager { current: 0, total: 1 }),
    {
        Self::new(1)
    }

    pub fn current(&self) -> (r: u16)
        ensures
            r == self.current,
    {
        self.current
    }

    pub fn total(&self) -> (r: u16)
        ensures
            r == self.total,
    {
        self.total
    }

    pub fn is_first(&self) -> (r: bool)
        ensures
            r == (self.current == 0),
    {
        self.current == 0
    }

    pub fn is_last(&self) -> (r: bool)
        ensures
            r == (self.current == last_page(self.total)),
    {
        self.current == self.total.saturating_sub(1)
    }

    /// The page before the current one, or the first page.
    pub open spec fn spec_prev(self) -> u16 {
        if self.current > 0 {
            (self.current - 1) as u16
        } else {
            0
        }
    }

    /// The page after the current one, or the last page.
    pub open spec fn spec_next(self) -> u16 {
        if self.current < last_page(self.total) {
            (self.current + 1) as u16
        } else {
            last_page(self.total)
        }
    }

    /// The previous page, or the first one.
    pub fn prev(&self) -> (r: u16)
        ensures
            r == self.spec_prev(),
    {
        self.current.saturating_sub(1)
    }

    /// The next page, or the last one.
    pub fn next(&self) -> (r: u16)
        ensures
            r == self.spec_next(),
    {
        let n = self.current.saturating_add(1);
        let last = self.total.saturating_sub(1);
        if n < last {
            n
        } else {
            last
        }
    }

    /// Goes to page `current`, clamped to the last page.
    pub fn set_current(&mut self, current: u16)
        ensures
            final(self).total == old(self).total,
            final(self).current == if current < last_page(old(self).total) { current } else { last_page(old(self).total) },
            final(self).wf(),
    {
        let last = self.total.saturating_sub(1);
        self.current = if current < last {
            current
        } else {
            last
        };
    }
}

/// Law: the previous and the next page are pages; going to the next page and
/// back returns to the current page unless it is the last, and going back and
/// then forward returns to it unless it is the first.
pub proof fn lemma_pager_steps(p: Pager)
    requires
        p.wf(),
    ensures
        p.spec_prev() <= last_page(p.total),
        p.spec_next() <= last_page(p.total),
        p.current < last_page(p.total) ==> (Pager { current: p.spec_next(), ..p }).spec_prev() == p.current,
        p.current > 0 ==> (Pager { current: p.spec_prev(), ..p }).spec_next() == p.current,
{
}

} // verus!
