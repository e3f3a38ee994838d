use vstd::prelude::*;
use crate::batch::Batch;
use crate::control::{ControlState, consumed, PAUSE_POLL_SECS};

verus! {

/// Seconds between two ticks of the scheduler loop.
pub const LOOP_CADENCE_SECS: u64 = 3;

/// The most pages that one batch asks the store for.
pub const PAGE_BATCH_LIMIT: u64 = 100;

/// What the scheduler does after its cadence sleep.
#[derive(Clone, Copy, Debug, PartialEq, Eq)]
pub enum TickStep {
    /// Paused: sleep this long and look again.
    Wait { secs: u64 },
    /// Look for the next pending comic; a stale restart signal has been cleared.
    SelectComic,
}

/// The scheduler's decision at the start of a tick: wait while paused, else
/// consume any restart signal and go on to select a comic.
pub fn begin_tick(state: &mut ControlState) -> (r: TickStep)
    ensures
        old(state).paused ==> r == (TickStep::Wait { secs: PAUSE_POLL_SECS }) && *final(state) == *old(state),
        !old(state).paused ==> r == TickStep::SelectComic && *final(state) == consumed(*old(state)),
{
    if state.is_paused() {
        TickStep::Wait { secs: PAUSE_POLL_SECS }
    } else {
        let _ = state.consume_restart();
        TickStep::SelectComic
    }
}

/// What the chapter fetcher does next.
#[derive(Clone, Copy, Debug, PartialEq, Eq)]
pub enum ChapterStep {
    /// Fetch the content list of the chapter at this position.
    Fetch(usize),
    /// A restart is pending: leave the remaining chapters pending.
    Abandon,
    /// Every chapter has been handled.
    Finished,
}

pub open spec fn chapter_step_of(restart_pending: bool, done: nat, total: nat) -> ChapterStep {
    if done >= total {
        ChapterStep::Finished
    } else if restart_pending {
        ChapterStep::Abandon
    } else {
        ChapterStep::Fetch(done as usize)
    }
}

/// The chapter fetcher's decision, with `done` chapters of `total` handled.
pub fn next_chapter_step(restart_pending: bool, done: usize, total: usize) -> (r: ChapterStep)
    ensures
        r == chapter_step_of(restart_pending, done as nat, total as nat),
{
    if done >= total {
        ChapterStep::Finished
    } else if restart_pending {
        ChapterStep::Abandon
    } else {
        ChapterStep::Fetch(done)
    }
}

/// How many chapters a walk fetches, from position `done` on, where `restart[k]`
/// is whether a restart is pending when position `k` is reached.
pub open spec fn chapters_fetched(restart: Seq<bool>, done: nat, total: nat) -> nat
    decreases total - done,
{
    if done >= total || done >= restart.len() {
        0
    } else {
        match chapter_step_of(restart[done as int], done, total) {
            ChapterStep::Fetch(_) => 1 + chapters_fetched(restart, done + 1, total),
            _ => 0,
        }
    }
}

/// A restart that becomes pending before chapter `k` is reached stops the walk
/// there: exactly the chapters before `k` are fetched, and those from `k` on
/// stay pending.
pub proof fn lemma_restart_abandons_rest(restart: Seq<bool>, k: nat, total: nat)
    requires
        k < total,
        restart.len() == total,
        restart[k as int],
        forall|j: int| 0 <= j < k ==> !#[trigger] restart[j],
    ensures
        chapters_fetched(restart, 0, total) == k,
{
    lemma_fetched_from(restart, 0, k, total);
}

proof fn lemma_fetched_from(restart: Seq<bool>, d: nat, k: nat, total: nat)
    requires
        d <= k < total,
        restart.len() == total,
        restart[k as int],
        forall|j: int| 0 <= j < k ==> !#[trigger] restart[j],
    ensures
        chapters_fetched(restart, d, total) == k - d,
    decreases k - d,
{
    if d < k {
        lemma_fetched_from(restart, d + 1, k, total);
    }
}

/// What the page drainer does next.
#[derive(Clone, Copy, Debug, PartialEq, Eq)]
pub enum DrainStep {
    /// A restart is pending: leave the comic.
    Stop,
    /// Ask the store for at most `limit` pending pages.
    FetchBatch { limit: u64 },
}

pub open spec fn drain_step_of(restart_pending: bool) -> DrainStep {
    if restart_pending {
        DrainStep::Stop
    } else {
        DrainStep::FetchBatch { limit: PAGE_BATCH_LIMIT }
    }
}

/// The drainer's decision before it fetches the next batch.
pub fn next_drain_step(restart_pending: bool) -> (r: DrainStep)
    ensures
        r == drain_step_of(restart_pending),
        r matches DrainStep::FetchBatch { limit } ==> limit <= 100,
{
    if restart_pending {
        DrainStep::Stop
    } else {
        DrainStep::FetchBatch { limit: PAGE_BATCH_LIMIT }
    }
}

/// The store is never asked for more than a hundred pages at a time.
pub proof fn lemma_batch_limit_bounded(restart_pending: bool)
    ensures
        drain_step_of(restart_pending) matches DrainStep::FetchBatch { limit } ==> limit <= 100,
{
}

/// Whether the drainer goes on with a fetched batch: an empty one ends the comic.
pub fn batch_has_work(batch_len: usize) -> (r: bool)
    ensures
        r == (batch_len > 0),
{
    batch_len > 0
}

/// The number of workers started for a batch: the worker count read at its start.
pub fn workers_for_batch(state: &ControlState) -> (r: u32)
    ensures
        r == state.worker_count,
{
    state.worker_count()
}

/// A worker's step: stop when a restart is pending or the queue is empty,
/// else take the most recently queued page.
pub fn worker_take(restart_pending: bool, batch: &mut Batch) -> (r: Option<usize>)
    requires
        old(batch).wf(),
    ensures
        final(batch).wf(),
        final(batch).pages_view() == old(batch).pages_view(),
        restart_pending ==> r is None && final(batch).queue_view() == old(batch).queue_view()
            && final(batch).slots_view() == old(batch).slots_view(),
        !restart_pending && old(batch).queue_view().len() == 0 ==> r is None
            && final(batch).queue_view() == old(batch).queue_view()
            && final(batch).slots_view() == old(batch).slots_view(),
        !restart_pending && old(batch).queue_view().len() > 0 ==> {
            &&& r == Some(old(batch).queue_view().last())
            &&& old(batch).slots_view()[r->0 as int] is Queued
            &&& final(batch).queue_view() == old(batch).queue_view().drop_last()
            &&& final(batch).slots_view() == old(batch).slots_view().update(r->0 as int, crate::batch::Slot::Taken)
        },
{
    if restart_pending {
        None
    } else {
        batch.pop()
    }
}

} // verus!
