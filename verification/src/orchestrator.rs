//! Page-fetch orchestration for one thread check: fetch the current page
//! first to learn the page count, then hand out the remaining pages under a
//! concurrency cap, tolerate individual page failures, and reassemble the
//! results in ascending page order.
//!
//! The orchestrator is pure bookkeeping: the caller performs the fetches and
//! reports each outcome back. `next_launch` never hands out a page while
//! `limit` fetches are outstanding, so the cap holds by construction.

use crate::nga_thread::NGAThread;
use vstd::prelude::*;

verus! {

broadcast use vstd::seq_lib::group_to_multiset_ensures;

/// The page a sweep starts on: the page holding the post after the watermark.
pub fn start_page(last_seen_post_number: u64) -> (res: u64)
    ensures
        res == last_seen_post_number / crate::DEFAULT_POST_PER_PAGE + 1,
{
    last_seen_post_number / crate::DEFAULT_POST_PER_PAGE + 1
}

/// Pages stand in ascending order of the page number each response reports.
pub open spec fn sorted_by_page(pages: Seq<NGAThread>) -> bool {
    forall|i: int, j: int|
        0 <= i < j < pages.len() ==> pages[i].current_page <= pages[j].current_page
}

/// Sorts fetched pages by the page number each response reports, ascending.
/// Completion order of concurrent fetches is no proxy for page order, so this
/// runs before any post is scanned.
pub fn sort_pages(pages: Vec<NGAThread>) -> (res: Vec<NGAThread>)
    ensures
        sorted_by_page(res@),
        res@.to_multiset() == pages@.to_multiset(),
{
    let mut rest = pages;
    let mut out: Vec<NGAThread> = Vec::new();
    proof {
        assert(out@.to_multiset().add(rest@.to_multiset()) =~= rest@.to_multiset());
    }
    while rest.len() > 0
        invariant
            sorted_by_page(out@),
            out@.to_multiset().add(rest@.to_multiset()) == pages@.to_multiset(),
            forall|i: int, j: int|
                0 <= i < out@.len() && 0 <= j < rest@.len() ==> out@[i].current_page
                    <= rest@[j].current_page,
        decreases rest.len(),
    {
        let mut m: usize = 0;
        let mut k: usize = 1;
        while k < rest.len()
            invariant
                rest@.len() > 0,
                m < k <= rest@.len(),
                forall|j: int| 0 <= j < k ==> rest@[m as int].current_page <= rest@[j].current_page,
            decreases rest.len() - k,
        {
            if rest[k].current_page < rest[m].current_page {
                m = k;
            }
            k += 1;
        }
        let ghost old_out = out@;
        let ghost old_rest = rest@;
        let picked = rest.remove(m);
        out.push(picked);
        proof {
            assert(out@.to_multiset() =~= old_out.to_multiset().insert(picked));
            assert(rest@.to_multiset() =~= old_rest.to_multiset().remove(picked));
            assert(old_rest.to_multiset().count(picked) >= 1) by {
                assert(old_rest[m as int] == picked);
                assert(old_rest.contains(picked));
            }
            assert(out@.to_multiset().add(rest@.to_multiset()) =~= old_out.to_multiset().add(
                old_rest.to_multiset(),
            ));
            // every element still waiting sat in `old_rest`, so the picked
            // minimum is no greater
            assert forall|j: int| 0 <= j < rest@.len() implies picked.current_page
                <= rest@[j].current_page by {
                if j < m {
                    assert(rest@[j] == old_rest[j]);
                } else {
                    assert(rest@[j] == old_rest[j + 1]);
                }
            }
        }
    }
    out
}

/// Bookkeeping of one thread's page sweep: which page to hand out next, how
/// many fetches are outstanding, and the pages fetched so far.
pub struct FetchOrchestrator {
    /// Forum thread id the sweep belongs to.
    pub tid: u64,
    /// The next page to hand out; pages above `total_pages` are never handed
    /// out.
    pub next_page: u64,
    /// The last page of the sweep, as the first response reported.
    pub total_pages: u64,
    /// Cap on concurrently outstanding fetches; positive.
    pub limit: u64,
    /// Fetches handed out whose outcome was not reported back yet.
    pub outstanding: u64,
    /// Successfully fetched pages, in completion order.
    pub pages: Vec<NGAThread>,
}

impl FetchOrchestrator {
    /// The sweep's bookkeeping is consistent; in particular the number of
    /// outstanding fetches never exceeds the configured cap.
    pub open spec fn inv(self) -> bool {
        &&& 1 <= self.limit
        &&& self.outstanding <= self.limit
        &&& self.total_pages < u64::MAX
    }

    /// Starts a sweep whose current page was already fetched: that page is
    /// collected, and the pages above it up to the reported total remain.
    pub fn begin(tid: u64, current_page: u64, first_page: NGAThread, limit: u64) -> (res: Self)
        requires
            1 <= limit,
            first_page.total_pages < u64::MAX,
            current_page < u64::MAX,
        ensures
            res.inv(),
            res.tid == tid,
            res.next_page == current_page + 1,
            res.total_pages == first_page.total_pages,
            res.limit == limit,
            res.outstanding == 0,
            res.pages@ == seq![first_page],
    {
        let total_pages = first_page.total_pages;
        let mut pages: Vec<NGAThread> = Vec::new();
        pages.push(first_page);
        proof {
            assert(pages@ =~= seq![first_page]);
        }
        FetchOrchestrator {
            tid,
            next_page: current_page + 1,
            total_pages,
            limit,
            outstanding: 0,
            pages,
        }
    }

    /// Hands out the next page to fetch, when a page is left and the
    /// concurrency cap admits another outstanding fetch; hands out nothing
    /// otherwise. More than `limit` fetches are never outstanding at once.
    pub fn next_launch(&mut self) -> (res: Option<u64>)
        requires
            old(self).inv(),
        ensures
            final(self).inv(),
            final(self).tid == old(self).tid,
            final(self).total_pages == old(self).total_pages,
            final(self).limit == old(self).limit,
            final(self).pages == old(self).pages,
            match res {
                Some(page) => {
                    &&& old(self).outstanding < old(self).limit
                    &&& old(self).next_page <= old(self).total_pages
                    &&& page == old(self).next_page
                    &&& final(self).next_page == old(self).next_page + 1
                    &&& final(self).outstanding == old(self).outstanding + 1
                },
                None => {
                    &&& old(self).outstanding == old(self).limit || old(self).next_page > old(
                        self,
                    ).total_pages
                    &&& *final(self) == *old(self)
                },
            },
    {
        if self.outstanding < self.limit && self.next_page <= self.total_pages {
            let page = self.next_page;
            self.next_page = page + 1;
            self.outstanding = self.outstanding + 1;
            Some(page)
        } else {
            None
        }
    }

    /// Records one fetch's outcome: a fetched page is collected, a failed
    /// page is dropped and simply contributes no posts; either way a slot
    /// under the cap frees up. A failed page never fails the sweep.
    pub fn on_page_result(&mut self, result: Option<NGAThread>)
        requires
            old(self).inv(),
            old(self).outstanding >= 1,
        ensures
            final(self).inv(),
            final(self).tid == old(self).tid,
            final(self).next_page == old(self).next_page,
            final(self).total_pages == old(self).total_pages,
            final(self).limit == old(self).limit,
            final(self).outstanding == old(self).outstanding - 1,
            final(self).pages@ == match result {
                Some(page) => old(self).pages@.push(page),
                None => old(self).pages@,
            },
    {
        self.outstanding = self.outstanding - 1;
        match result {
            Some(page) => self.pages.push(page),
            None => (),
        }
    }

    /// The sweep is complete: every page was handed out and every outcome
    /// reported back.
    pub fn is_complete(&self) -> (res: bool)
        ensures
            res == (self.outstanding == 0 && self.next_page > self.total_pages),
    {
        self.outstanding == 0 && self.next_page > self.total_pages
    }

    /// Reassembles the sweep: the collected pages, sorted into ascending page
    /// order for the scanner.
    pub fn finish(self) -> (res: Vec<NGAThread>)
        ensures
            sorted_by_page(res@),
            res@.to_multiset() == self.pages@.to_multiset(),
    {
        sort_pages(self.pages)
    }
}

/// Bounded concurrency: however the sweep was driven, while its bookkeeping
/// is consistent no more than `limit` fetches are ever outstanding.
pub proof fn lemma_outstanding_bounded(orchestrator: FetchOrchestrator)
    requires
        orchestrator.inv(),
    ensures
        orchestrator.outstanding <= orchestrator.limit,
{
}

} // verus!
