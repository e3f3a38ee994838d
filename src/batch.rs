use vstd::prelude::*;
use crate::media::{ImageMeta, PageOutcome};
use crate::pages::PageTask;

verus! {

/// Where a page of a batch stands.
#[derive(Clone, Debug, PartialEq, Eq)]
pub enum Slot {
    /// Waiting in the queue.
    Queued,
    /// Popped by a worker, whose download is under way.
    Taken,
    Succeeded(ImageMeta),
    Failed,
}

pub open spec fn is_terminal(s: Slot) -> bool {
    s is Succeeded || s is Failed
}

/// One batch of pages: the last-in-first-out queue that its workers pop from,
/// and where each page stands.
pub struct Batch {
    pages: Vec<PageTask>,
    queue: Vec<usize>,
    slots: Vec<Slot>,
}

impl Batch {
    pub closed spec fn pages_view(&self) -> Seq<PageTask> {
        self.pages@
    }

    pub closed spec fn queue_view(&self) -> Seq<usize> {
        self.queue@
    }

    pub closed spec fn slots_view(&self) -> Seq<Slot> {
        self.slots@
    }

    /// A page is queued exactly when its index is in the queue, once.
    pub closed spec fn wf(&self) -> bool {
        &&& self.slots@.len() == self.pages@.len()
        &&& self.queue@.no_duplicates()
        &&& forall|k: int| 0 <= k < self.queue@.len() ==> (#[trigger] self.queue@[k]) < self.pages@.len()
        &&& forall|i: int|
            0 <= i < self.slots@.len() ==> ((#[trigger] self.slots@[i] is Queued) <==> self.queue@.contains(i as usize))
    }

    /// Every page queued, to be popped from the back.
    pub fn new(pages: Vec<PageTask>) -> (r: Batch)
        ensures
            r.wf(),
            r.pages_view() == pages@,
            r.queue_view() == Seq::new(pages@.len(), |i: int| i as usize),
            forall|i: int| 0 <= i < pages@.len() ==> #[trigger] r.slots_view()[i] is Queued,
    {
        let mut queue: Vec<usize> = Vec::new();
        let mut slots: Vec<Slot> = Vec::new();
        let mut i: usize = 0;
        while i < pages.len()
            invariant
                i <= pages.len(),
                queue.len() == i,
                slots.len() == i,
                forall|k: int| 0 <= k < i ==> queue[k] == k,
                forall|k: int| 0 <= k < i ==> #[trigger] slots[k] is Queued,
            decreases pages.len() - i,
        {
            queue.push(i);
            slots.push(Slot::Queued);
            i = i + 1;
        }
        let r = Batch { pages, queue, slots };
        assert(r.queue@ =~= Seq::new(r.pages@.len(), |i: int| i as usize));
        assert forall|a: int, b: int| 0 <= a < b < r.queue@.len() implies r.queue@[a] != r.queue@[b] by {}
        assert forall|k: int| 0 <= k < r.slots@.len() implies (#[trigger] r.slots@[k] is Queued) <==> r.queue@.contains(k as usize) by {
            assert(r.queue@[k] == k as usize);
        }
        r
    }

    pub fn len(&self) -> (r: usize)
        ensures
            r == self.pages_view().len(),
    {
        self.pages.len()
    }

    pub fn page(&self, i: usize) -> (r: &PageTask)
        requires
            i < self.pages_view().len(),
        ensures
            *r == self.pages_view()[i as int],
    {
        &self.pages[i]
    }

    pub fn slot(&self, i: usize) -> (r: &Slot)
        requires
            self.wf(),
            i < self.pages_view().len(),
        ensures
            *r == self.slots_view()[i as int],
    {
        &self.slots[i]
    }

    /// Pops the most recently queued page, marking it taken; `None` once the queue is empty.
    pub fn pop(&mut self) -> (r: Option<usize>)
        requires
            old(self).wf(),
        ensures
            final(self).wf(),
            final(self).pages_view() == old(self).pages_view(),
            old(self).queue_view().len() == 0 ==> r is None && final(self).queue_view() == old(self).queue_view()
                && final(self).slots_view() == old(self).slots_view(),
            old(self).queue_view().len() > 0 ==> {
                &&& r == Some(old(self).queue_view().last())
                &&& old(self).slots_view()[r->0 as int] is Queued
                &&& final(self).queue_view() == old(self).queue_view().drop_last()
                &&& final(self).slots_view() == old(self).slots_view().update(r->0 as int, Slot::Taken)
            },
    {
        match self.queue.pop() {
            None => None,
            Some(i) => {
                let ghost q = old(self).queue@;
                assert(q.drop_last().push(i) == q);
                self.slots.set(i, Slot::Taken);
                let n_slots = self.slots.len();
                proof {
                    assert(self.slots@.len() == n_slots as int);
                    let nq = self.queue@;
                    assert forall|a: int, b: int| 0 <= a < b < nq.len() implies nq[a] != nq[b] by {
                        assert(nq[a] == q[a] && nq[b] == q[b]);
                    }
                    assert forall|k: int| 0 <= k < self.slots@.len() implies (#[trigger] self.slots@[k] is Queued) <==> nq.contains(k as usize) by {
                        if k == i as int {
                            if nq.contains(k as usize) {
                                let w = choose|w: int| 0 <= w < nq.len() && nq[w] == k as usize;
                                assert(q[w] == q[q.len() - 1]);
                            }
                        } else {
                            if q.contains(k as usize) {
                                let w = choose|w: int| 0 <= w < q.len() && q[w] == k as usize;
                                assert(q[q.len() - 1] == i);
                                assert(q[w] == k as usize);
                                assert((k as usize) != i);
                                assert(w != q.len() - 1);
                                assert(nq[w] == k as usize);
                            }
                            if nq.contains(k as usize) {
                                let w = choose|w: int| 0 <= w < nq.len() && nq[w] == k as usize;
                                assert(q[w] == k as usize);
                            }
                        }
                    }
                }
                Some(i)
            },
        }
    }

    /// Records how a taken page ended; no other page changes.
    pub fn record(&mut self, i: usize, outcome: PageOutcome)
        requires
            old(self).wf(),
            i < old(self).pages_view().len(),
            old(self).slots_view()[i as int] is Taken,
        ensures
            final(self).wf(),
            final(self).pages_view() == old(self).pages_view(),
            final(self).queue_view() == old(self).queue_view(),
            final(self).slots_view() == old(self).slots_view().update(
                i as int,
                match outcome {
                    PageOutcome::Success(m) => Slot::Succeeded(m),
                    PageOutcome::Failed => Slot::Failed,
                },
            ),
    {
        let s = match outcome {
            PageOutcome::Success(m) => Slot::Succeeded(m),
            PageOutcome::Failed => Slot::Failed,
        };
        self.slots.set(i, s);
        proof {
            assert forall|k: int| 0 <= k < self.slots@.len() implies (#[trigger] self.slots@[k] is Queued) <==> self.queue@.contains(k as usize) by {
                if k != i as int {
                    assert(self.slots@[k] == old(self).slots@[k]);
                }
            }
        }
    }

    /// Whether no page waits in the queue.
    pub fn is_drained(&self) -> (r: bool)
        ensures
            r == (self.queue_view().len() == 0),
    {
        self.queue.len() == 0
    }

    /// The number of pages that ended in success.
    pub fn succeeded_count(&self) -> (r: usize)
        ensures
            r == succeeded_set(self.slots_view()).len(),
    {
        let mut n: usize = 0;
        let mut i: usize = 0;
        assert(succeeded_below(self.slots@, 0) =~= Set::empty());
        while i < self.slots.len()
            invariant
                i <= self.slots.len(),
                n == succeeded_below(self.slots@, i as int).len(),
                n <= i,
            decreases self.slots.len() - i,
        {
            proof { lemma_below_step(self.slots@, i as int); }
            if let Slot::Succeeded(_) = &self.slots[i] {
                n = n + 1;
            }
            i = i + 1;
        }
        proof { assert(succeeded_below(self.slots@, i as int) =~= succeeded_set(self.slots@)); }
        n
    }

    /// The number of pages that failed.
    pub fn failed_count(&self) -> (r: usize)
        ensures
            r == failed_set(self.slots_view()).len(),
    {
        let mut n: usize = 0;
        let mut i: usize = 0;
        assert(failed_below(self.slots@, 0) =~= Set::empty());
        while i < self.slots.len()
            invariant
                i <= self.slots.len(),
                n == failed_below(self.slots@, i as int).len(),
                n <= i,
            decreases self.slots.len() - i,
        {
            proof { lemma_below_step(self.slots@, i as int); }
            if let Slot::Failed = &self.slots[i] {
                n = n + 1;
            }
            i = i + 1;
        }
        proof { assert(failed_below(self.slots@, i as int) =~= failed_set(self.slots@)); }
        n
    }
}

pub open spec fn succeeded_below(s: Seq<Slot>, n: int) -> Set<int> {
    Set::new(|i: int| 0 <= i < n && s[i] is Succeeded)
}

pub open spec fn failed_below(s: Seq<Slot>, n: int) -> Set<int> {
    Set::new(|i: int| 0 <= i < n && s[i] is Failed)
}

/// The positions of the pages that ended in success.
pub open spec fn succeeded_set(s: Seq<Slot>) -> Set<int> {
    succeeded_below(s, s.len() as int)
}

/// The positions of the pages that failed.
pub open spec fn failed_set(s: Seq<Slot>) -> Set<int> {
    failed_below(s, s.len() as int)
}

proof fn lemma_below_step(s: Seq<Slot>, n: int)
    requires
        0 <= n < s.len(),
    ensures
        succeeded_below(s, n).finite(),
        failed_below(s, n).finite(),
        succeeded_below(s, n).len() <= n,
        failed_below(s, n).len() <= n,
        s[n] is Succeeded ==> succeeded_below(s, n + 1) == succeeded_below(s, n).insert(n),
        !(s[n] is Succeeded) ==> succeeded_below(s, n + 1) == succeeded_below(s, n),
        s[n] is Failed ==> failed_below(s, n + 1) == failed_below(s, n).insert(n),
        !(s[n] is Failed) ==> failed_below(s, n + 1) == failed_below(s, n),
{
    let all = Set::new(|i: int| 0 <= i < n);
    assert(all =~= vstd::set_lib::set_int_range(0, n));
    vstd::set_lib::lemma_int_range(0, n);
    assert(succeeded_below(s, n).subset_of(all));
    assert(failed_below(s, n).subset_of(all));
    vstd::set_lib::lemma_len_subset(succeeded_below(s, n), all);
    vstd::set_lib::lemma_len_subset(failed_below(s, n), all);
    assert(s[n] is Succeeded ==> succeeded_below(s, n + 1) =~= succeeded_below(s, n).insert(n));
    assert(!(s[n] is Succeeded) ==> succeeded_below(s, n + 1) =~= succeeded_below(s, n));
    assert(s[n] is Failed ==> failed_below(s, n + 1) =~= failed_below(s, n).insert(n));
    assert(!(s[n] is Failed) ==> failed_below(s, n + 1) =~= failed_below(s, n));
}

/// After a full drain, with the queue empty and no download under way, every
/// page has ended, in success or in failure: the two sets of pages are disjoint
/// and together hold every page of the batch.
pub proof fn lemma_full_drain_partitions(b: Batch)
    requires
        b.wf(),
        b.queue_view().len() == 0,
        forall|i: int| 0 <= i < b.slots_view().len() ==> !(#[trigger] b.slots_view()[i] is Taken),
    ensures
        forall|i: int| 0 <= i < b.pages_view().len() ==> is_terminal(#[trigger] b.slots_view()[i]),
        succeeded_set(b.slots_view()).disjoint(failed_set(b.slots_view())),
        succeeded_set(b.slots_view()) + failed_set(b.slots_view()) == Set::new(|i: int| 0 <= i < b.pages_view().len()),
{
    reveal(Batch::wf);
    let s = b.slots_view();
    assert forall|i: int| 0 <= i < b.pages_view().len() implies is_terminal(#[trigger] s[i]) by {
        assert(!b.queue_view().contains(i as usize));
    }
    assert(succeeded_set(s) + failed_set(s) =~= Set::new(|i: int| 0 <= i < b.pages_view().len()));
}

/// A failed page is isolated: recording its failure leaves every other page
/// where it stood, adds that page alone to the failed pages and leaves the
/// pages that succeeded as they were.
pub proof fn lemma_failure_isolated(b: Batch, i: int)
    requires
        b.wf(),
        0 <= i < b.slots_view().len(),
        b.slots_view()[i] is Taken,
    ensures
        forall|j: int|
            0 <= j < b.slots_view().len() && j != i ==> #[trigger] b.slots_view().update(i, Slot::Failed)[j]
                == b.slots_view()[j],
        failed_set(b.slots_view().update(i, Slot::Failed)) == failed_set(b.slots_view()).insert(i),
        succeeded_set(b.slots_view().update(i, Slot::Failed)) == succeeded_set(b.slots_view()),
{
    let s = b.slots_view();
    let t = s.update(i, Slot::Failed);
    assert(failed_set(t) =~= failed_set(s).insert(i));
    assert(succeeded_set(t) =~= succeeded_set(s));
}

} // verus!
