//! The page-position state machine shared by the catalog and the work
//! level: a current page (at least 1) and an optional upper bound.
//!
//! While the bound is unknown the cursor navigates as a single-page
//! entity: only page 1 is reachable. Discovery supplies the bound once;
//! the owner of the cursor decides when.

use vstd::prelude::*;

verus! {

#[derive(Debug, Clone)]
pub struct PageCursor {
    pub page: usize,
    pub last_page: Option<usize>,
}

impl PageCursor {
    /// The cursor position is always a real page number.
    pub open spec fn wf(&self) -> bool {
        1 <= self.page
    }

    /// The highest page a navigation may reach: the known bound, or 1
    /// while the bound is unknown.
    pub open spec fn bound(&self) -> int {
        match self.last_page {
            Some(n) => n as int,
            None => 1,
        }
    }

    pub fn new() -> (r: PageCursor)
        ensures
            r.page == 1,
            r.last_page is None,
            r.wf(),
    {
        PageCursor { page: 1, last_page: None }
    }

    /// Jump to `page`: succeeds and moves the cursor iff
    /// `1 <= page <= bound`; otherwise the cursor is unchanged.
    pub fn open_page(&mut self, page: usize) -> (r: Option<usize>)
        requires
            old(self).wf(),
        ensures
            final(self).wf(),
            final(self).last_page == old(self).last_page,
            1 <= page && page <= old(self).bound() ==> {
                &&& r == Some(page)
                &&& final(self).page == page
            },
            !(1 <= page && page <= old(self).bound()) ==> {
                &&& r is None
                &&& *final(self) == *old(self)
            },
    {
        let limit: usize = match self.last_page {
            Some(n) => n,
            None => 1,
        };
        if 1 <= page && page <= limit {
            self.page = page;
            Some(page)
        } else {
            None
        }
    }

    /// Step forward: `open_page(page + 1)`.
    pub fn next_page(&mut self) -> (r: Option<usize>)
        requires
            old(self).wf(),
        ensures
            final(self).wf(),
            final(self).last_page == old(self).last_page,
            old(self).page + 1 <= old(self).bound() ==> {
                &&& r == Some((old(self).page + 1) as usize)
                &&& final(self).page == old(self).page + 1
            },
            old(self).page + 1 > old(self).bound() ==> {
                &&& r is None
                &&& *final(self) == *old(self)
            },
    {
        if self.page == usize::MAX {
            None
        } else {
            self.open_page(self.page + 1)
        }
    }

    /// Step backward: `open_page(page - 1)`.
    pub fn prev_page(&mut self) -> (r: Option<usize>)
        requires
            old(self).wf(),
        ensures
            final(self).wf(),
            final(self).last_page == old(self).last_page,
            1 <= old(self).page - 1 && old(self).page - 1 <= old(self).bound() ==> {
                &&& r == Some((old(self).page - 1) as usize)
                &&& final(self).page == old(self).page - 1
            },
            !(1 <= old(self).page - 1 && old(self).page - 1 <= old(self).bound()) ==> {
                &&& r is None
                &&& *final(self) == *old(self)
            },
    {
        let target = self.page - 1;
        self.open_page(target)
    }

    /// True when a further page exists after the current one; a caller
    /// that just fetched uses this as the "more pages remain" signal.
    pub fn has_page_after(&self) -> (r: bool)
        ensures
            r == (self.page != self.bound()),
    {
        match self.last_page {
            Some(n) => self.page != n,
            None => self.page != 1,
        }
    }
}

/// Stepping forward while already at the bound moves nothing: the cursor
/// rejects the transition, so no request is ever issued for it.
pub proof fn law_next_at_bound_rejected(c: PageCursor)
    requires
        c.wf(),
        c.page == c.bound(),
    ensures
        c.page + 1 > c.bound(),
{
}

} // verus!
