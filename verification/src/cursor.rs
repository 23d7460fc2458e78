use vstd::prelude::*;
use crate::config::RunConfig;

verus! {

/// What one call to [`RunState::claim`] yields: the next unclaimed job, or the
/// signal that the list is exhausted. `NoMoreJobs` is the normal drain signal,
/// not an error.
pub enum ClaimOutcome {
    Claimed { index: usize, name: String },
    NoMoreJobs,
}

/// The shared state of one run: the job list and the configuration, both
/// immutable after construction, and the cursor `next_index`, the sole piece
/// of mutable state shared across workers. The surrounding program keeps one
/// instance per run behind a mutual-exclusion lock and calls [`Self::claim`]
/// while holding it.
pub struct RunState {
    pub jobs: Vec<String>,
    pub next_index: usize,
    pub config: RunConfig,
}

/// One transition of the cursor on a list of `len` jobs: a successful claim
/// advances it by one, an exhausted list leaves it unchanged.
pub open spec fn claim_step(before: int, after: int, len: int) -> bool {
    if before < len {
        after == before + 1
    } else {
        after == before
    }
}

impl RunState {
    /// The cursor never leaves `[0, jobs.len()]`.
    pub open spec fn wf(&self) -> bool {
        self.next_index <= self.jobs.len()
    }

    /// Set up the state for a fresh run: no job claimed yet.
    pub fn new(jobs: Vec<String>, config: RunConfig) -> (r: RunState)
        ensures
            r.wf(),
            r.jobs == jobs,
            r.config == config,
            r.next_index == 0,
    {
        RunState { jobs, next_index: 0, config }
    }

    /// Reserve the next unclaimed job index for the calling worker.
    ///
    /// If the list is exhausted the cursor is left alone and `NoMoreJobs`
    /// comes back; otherwise the current cursor value and the job name at it
    /// come back and the cursor advances by one. The job list and the
    /// configuration are never touched, and the cursor never decreases.
    pub fn claim(&mut self) -> (r: ClaimOutcome)
        requires
            old(self).wf(),
        ensures
            final(self).wf(),
            final(self).jobs == old(self).jobs,
            final(self).config == old(self).config,
            claim_step(old(self).next_index as int, final(self).next_index as int, old(self).jobs.len() as int),
            old(self).next_index >= old(self).jobs.len() ==> (r is NoMoreJobs
                && final(self).next_index == old(self).next_index),
            old(self).next_index < old(self).jobs.len() ==> (r matches ClaimOutcome::Claimed { index, name }
                && index == old(self).next_index
                && name == old(self).jobs@[old(self).next_index as int]
                && final(self).next_index == old(self).next_index + 1),
    {
        if self.next_index >= self.jobs.len() {
            ClaimOutcome::NoMoreJobs
        } else {
            let index = self.next_index;
            self.next_index = index + 1;
            let name = self.jobs[index].clone();
            ClaimOutcome::Claimed { index, name }
        }
    }

    /// How many jobs are still unclaimed.
    pub fn remaining(&self) -> (r: usize)
        requires
            self.wf(),
        ensures
            r == self.jobs.len() - self.next_index,
    {
        self.jobs.len() - self.next_index
    }
}

/// Monotonic cursor: along any chain of cursor values in which each value
/// follows from the previous one by a claim transition, an earlier observation
/// is never larger than a later one.
pub proof fn lemma_cursor_monotonic(cursors: Seq<int>, len: int, t1: int, t2: int)
    requires
        forall|i: int| 0 <= i < cursors.len() - 1 ==> #[trigger] claim_step(cursors[i], cursors[i + 1], len),
        0 <= t1 <= t2 < cursors.len(),
    ensures
        cursors[t1] <= cursors[t2],
    decreases t2 - t1,
{
    if t1 < t2 {
        lemma_cursor_monotonic(cursors, len, t1, t2 - 1);
        assert(claim_step(cursors[t2 - 1], cursors[t2 - 1 + 1], len));
    }
}

} // verus!
