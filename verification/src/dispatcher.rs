use vstd::prelude::*;
use crate::config::RunConfig;
use crate::cursor::{ClaimOutcome, RunState};
use crate::worker::{outcome_is_fatal, ProcessOutcome, WorkerStatus};

verus! {

/// One claim, as the run's history records it: which worker reserved which job
/// index, and whether the execution of that job succeeded.
#[derive(Clone, Copy, Debug, PartialEq, Eq, Structural)]
pub struct ClaimRecord {
    pub worker: usize,
    pub index: usize,
    pub succeeded: bool,
}

/// How many records of `log` carry a successful execution.
pub open spec fn succeeded_count(log: Seq<ClaimRecord>) -> int
    decreases log.len(),
{
    if log.len() == 0 {
        0
    } else {
        succeeded_count(log.drop_last()) + if log.last().succeeded {
            1int
        } else {
            0int
        }
    }
}

proof fn lemma_succeeded_count_push(log: Seq<ClaimRecord>, r: ClaimRecord)
    ensures
        succeeded_count(log.push(r)) == succeeded_count(log) + if r.succeeded {
            1int
        } else {
            0int
        },
{
    assert(log.push(r).drop_last() =~= log);
    assert(log.push(r).last() == r);
}

proof fn lemma_succeeded_count_bounds(log: Seq<ClaimRecord>)
    ensures
        0 <= succeeded_count(log) <= log.len(),
    decreases log.len(),
{
    if log.len() > 0 {
        lemma_succeeded_count_bounds(log.drop_last());
    }
}

/// The aggregate result of one run: how many jobs the list held, how many were
/// attempted (claimed), how many completed, the terminal status of every
/// worker, and the full claim history.
pub struct RunReport {
    pub total_jobs: usize,
    pub attempted: usize,
    pub completed: usize,
    pub statuses: Vec<WorkerStatus>,
    pub log: Vec<ClaimRecord>,
}

/// The dispatcher of one run. It owns the shared state, one status per worker,
/// and the run's history. A real run's two sources of nondeterminism — the
/// order in which the scheduler lets workers reach the lock, and what the
/// external process does per job — enter only as explicit inputs: the schedule
/// of worker turns, and one `ProcessOutcome` per job index. Every contract
/// below therefore holds for every interleaving and every pattern of external
/// failures.
pub struct Dispatcher {
    pub state: RunState,
    pub statuses: Vec<WorkerStatus>,
    pub outcomes: Vec<ProcessOutcome>,
    pub log: Vec<ClaimRecord>,
    pub completed: usize,
}

impl Dispatcher {
    /// The history so far: the k-th claim of the run reserved job index k, was
    /// made by a worker of the pool, and records the external outcome of its
    /// job.
    pub open spec fn log_wf(&self) -> bool {
        &&& self.log@.len() == self.state.next_index
        &&& forall|k: int|
            0 <= k < self.log@.len() ==> ((#[trigger] self.log@[k]).index == k
                && self.log@[k].worker < self.statuses@.len() && self.log@[k].succeeded == (
            self.outcomes@[k] is Success))
    }

    /// Failure containment: a failed job stops its worker, and a worker whose
    /// job failed never appears in the history again.
    pub open spec fn containment_wf(&self) -> bool {
        &&& forall|k: int|
            0 <= k < self.log@.len() && !(#[trigger] self.log@[k]).succeeded
                ==> self.statuses@[self.log@[k].worker as int] is Stopped
        &&& forall|k1: int, k2: int|
            0 <= k1 < k2 < self.log@.len() && (#[trigger] self.log@[k1]).worker == (
            #[trigger] self.log@[k2]).worker ==> self.log@[k1].succeeded
    }

    /// Status bookkeeping: a worker is `Done` only once the list is drained,
    /// and `Stopped` only on the witness of one of its jobs failing.
    pub open spec fn statuses_wf(&self) -> bool {
        &&& self.statuses@.len() >= 1
        &&& forall|w: int|
            0 <= w < self.statuses@.len() && (#[trigger] self.statuses@[w]) is Done
                ==> self.state.next_index == self.state.jobs@.len()
        &&& forall|w: int|
            0 <= w < self.statuses@.len() && (#[trigger] self.statuses@[w]) is Stopped
                ==> exists|k: int|
                0 <= k < self.log@.len() && (#[trigger] self.log@[k]).worker == w
                    && !self.log@[k].succeeded
    }

    pub open spec fn wf(&self) -> bool {
        &&& self.state.wf()
        &&& self.outcomes@.len() == self.state.jobs@.len()
        &&& self.log_wf()
        &&& self.containment_wf()
        &&& self.statuses_wf()
        &&& self.completed == succeeded_count(self.log@)
    }

    /// No worker is still claiming.
    pub open spec fn all_terminal(&self) -> bool {
        forall|w: int|
            0 <= w < self.statuses@.len() ==> !((#[trigger] self.statuses@[w]) is Active)
    }

    /// Set up a run: the cursor at zero, an empty history, and `worker_count`
    /// workers, all active.
    pub fn new(
        jobs: Vec<String>,
        config: RunConfig,
        worker_count: usize,
        outcomes: Vec<ProcessOutcome>,
    ) -> (d: Dispatcher)
        requires
            worker_count >= 1,
            outcomes@.len() == jobs@.len(),
        ensures
            d.wf(),
            d.state.jobs == jobs,
            d.state.config == config,
            d.state.next_index == 0,
            d.outcomes == outcomes,
            d.statuses@.len() == worker_count,
            forall|w: int| 0 <= w < worker_count ==> (#[trigger] d.statuses@[w]) is Active,
            d.log@.len() == 0,
            d.completed == 0,
    {
        let state = RunState::new(jobs, config);
        let mut statuses: Vec<WorkerStatus> = Vec::new();
        let mut w: usize = 0;
        while w < worker_count
            invariant
                w <= worker_count,
                statuses@.len() == w,
                forall|v: int| 0 <= v < w ==> (#[trigger] statuses@[v]) is Active,
            decreases worker_count - w,
        {
            statuses.push(WorkerStatus::Active);
            w = w + 1;
        }
        Dispatcher { state, statuses, outcomes, log: Vec::new(), completed: 0 }
    }

    /// What an active worker's turn leaves behind when it finds the list
    /// exhausted: nothing claimed, the worker terminated normally.
    pub open spec fn spec_step_done(pre: Dispatcher, post: Dispatcher, w: usize) -> bool {
        &&& post.log == pre.log
        &&& post.completed == pre.completed
        &&& post.state.next_index == pre.state.next_index
        &&& post.statuses@[w as int] is Done
    }

    /// What an active worker's turn leaves behind when a job is available: the
    /// claim enters the history, the cursor advances by one, and the worker
    /// stays active exactly when the job's external outcome is a success.
    pub open spec fn spec_step_claimed(pre: Dispatcher, post: Dispatcher, w: usize) -> bool {
        let k = pre.state.next_index;
        let ok = pre.outcomes@[k as int] is Success;
        &&& post.log@ == pre.log@.push((ClaimRecord { worker: w, index: k, succeeded: ok }))
        &&& post.state.next_index == k + 1
        &&& (post.statuses@[w as int] is Active <==> ok)
        &&& (post.statuses@[w as int] is Stopped <==> !ok)
        &&& post.completed == pre.completed + (if ok { 1int } else { 0int })
    }

    /// One turn of worker `w`, the whole body of the worker loop: if `w` is
    /// still active it claims; an exhausted list terminates it normally
    /// (`Done`); otherwise the claimed job runs with its recorded outcome, the
    /// claim enters the history, and a failure stops the worker. A worker that
    /// already terminated changes nothing.
    pub fn step(&mut self, w: usize)
        requires
            old(self).wf(),
            w < old(self).statuses@.len(),
        ensures
            final(self).wf(),
            final(self).state.jobs == old(self).state.jobs,
            final(self).state.config == old(self).state.config,
            final(self).outcomes == old(self).outcomes,
            final(self).statuses@.len() == old(self).statuses@.len(),
            forall|v: int|
                0 <= v < old(self).statuses@.len() && v != w ==> final(self).statuses@[v]
                    == old(self).statuses@[v],
            !(old(self).statuses@[w as int] is Active) ==> *final(self) == *old(self),
            (old(self).statuses@[w as int] is Active && old(self).state.next_index
                >= old(self).state.jobs@.len()) ==> Self::spec_step_done(
                *old(self),
                *final(self),
                w,
            ),
            (old(self).statuses@[w as int] is Active && old(self).state.next_index
                < old(self).state.jobs@.len()) ==> Self::spec_step_claimed(
                *old(self),
                *final(self),
                w,
            ),
    {
        if !self.statuses[w].is_active() {
            return;
        }
        match self.state.claim() {
            ClaimOutcome::NoMoreJobs => {
                self.statuses[w] = WorkerStatus::Done;
            },
            ClaimOutcome::Claimed { index, name: _name } => {
                let outcome = self.outcomes[index];
                let ok = !outcome_is_fatal(&outcome);
                proof {
                    lemma_succeeded_count_bounds(self.log@);
                    lemma_succeeded_count_push(
                        self.log@,
                        ClaimRecord { worker: w, index, succeeded: ok },
                    );
                    // w is still active, so no earlier claim of w failed
                    assert forall|k: int|
                        0 <= k < self.log@.len() && (#[trigger] self.log@[k]).worker
                            == w implies self.log@[k].succeeded by {
                        if !self.log@[k].succeeded {
                            assert(old(self).statuses@[w as int] is Stopped);
                        }
                    }
                }
                self.log.push(ClaimRecord { worker: w, index, succeeded: ok });
                if ok {
                    self.completed = self.completed + 1;
                } else {
                    self.statuses[w] = WorkerStatus::Stopped;
                }
                proof {
                    let new_k = old(self).log@.len() as int;
                    assert forall|v: int|
                        0 <= v < self.statuses@.len() && (#[trigger] self.statuses@[v])
                            is Stopped implies exists|k: int|
                        0 <= k < self.log@.len() && (#[trigger] self.log@[k]).worker == v && !(
                        self.log@[k].succeeded) by {
                        if old(self).statuses@[v] is Stopped {
                            let k = choose|k: int|
                                0 <= k < old(self).log@.len() && (#[trigger] old(
                                    self,
                                ).log@[k]).worker == v && !old(self).log@[k].succeeded;
                            assert(self.log@[k].worker == v && !self.log@[k].succeeded);
                        } else {
                            assert(v == w && !ok);
                            assert(self.log@[new_k].worker == v && !self.log@[new_k].succeeded);
                        }
                    }
                }
            },
        }
    }

    /// Let workers take turns in the order `schedule` gives, then drive every
    /// worker on until it reaches a terminal state (join-all: the dispatcher
    /// returns only once no worker is active). The schedule stands for the
    /// scheduler's choices of which worker wins the lock next; any finite
    /// schedule may be given, so every property proved here holds for every
    /// interleaving.
    pub fn run_all(&mut self, schedule: &Vec<usize>)
        requires
            old(self).wf(),
            forall|i: int|
                0 <= i < schedule@.len() ==> #[trigger] schedule@[i] < old(self).statuses@.len(),
        ensures
            final(self).wf(),
            final(self).all_terminal(),
            final(self).state.jobs == old(self).state.jobs,
            final(self).state.config == old(self).state.config,
            final(self).outcomes == old(self).outcomes,
            final(self).statuses@.len() == old(self).statuses@.len(),
    {
        let mut si: usize = 0;
        while si < schedule.len()
            invariant
                self.wf(),
                si <= schedule@.len(),
                forall|i: int| 0 <= i < schedule@.len() ==> #[trigger] schedule@[i]
                    < self.statuses@.len(),
                self.state.jobs == old(self).state.jobs,
                self.state.config == old(self).state.config,
                self.outcomes == old(self).outcomes,
                self.statuses@.len() == old(self).statuses@.len(),
            decreases schedule@.len() - si,
        {
            let w = schedule[si];
            self.step(w);
            si = si + 1;
        }
        let worker_count = self.statuses.len();
        let mut w: usize = 0;
        while w < worker_count
            invariant
                self.wf(),
                w <= worker_count,
                worker_count == self.statuses@.len(),
                self.state.jobs == old(self).state.jobs,
                self.state.config == old(self).state.config,
                self.outcomes == old(self).outcomes,
                self.statuses@.len() == old(self).statuses@.len(),
                forall|v: int| 0 <= v < w ==> !((#[trigger] self.statuses@[v]) is Active),
            decreases worker_count - w,
        {
            while self.statuses[w].is_active()
                invariant
                    self.wf(),
                    w < worker_count,
                    worker_count == self.statuses@.len(),
                    self.state.jobs == old(self).state.jobs,
                    self.state.config == old(self).state.config,
                    self.outcomes == old(self).outcomes,
                    self.statuses@.len() == old(self).statuses@.len(),
                    forall|v: int| 0 <= v < w ==> !((#[trigger] self.statuses@[v]) is Active),
                decreases
                    self.state.jobs@.len() - self.state.next_index,
                    (if self.statuses@[w as int] is Active { 1int } else { 0int }),
            {
                self.step(w);
            }
            w = w + 1;
        }
    }
}

/// Dispatch one whole run: build the shared state with the cursor at zero,
/// give every one of the `worker_count` workers its turns as `schedule`
/// dictates, wait until each has terminated, and aggregate the result.
///
/// The contract carries the run's guarantees, for every schedule and every
/// pattern of external outcomes:
/// - the k-th claim of the run reserves job index k, so no index is claimed
///   twice and none is skipped (exactly-once claiming, in cursor order);
/// - at most one worker executes any job, and each claim records the external
///   outcome of exactly its job;
/// - every worker terminates; a worker is `Stopped` exactly when one of its
///   jobs failed, and after its failure it never claims again, while the other
///   workers keep going (partial-failure containment);
/// - if any worker drained the list (`Done`), every job was claimed; if no
///   external outcome is a failure, every job is attempted;
/// - an empty job list is drained immediately with nothing attempted.
pub fn run(
    jobs: Vec<String>,
    config: RunConfig,
    worker_count: usize,
    schedule: &Vec<usize>,
    outcomes: Vec<ProcessOutcome>,
) -> (report: RunReport)
    requires
        worker_count >= 1,
        outcomes@.len() == jobs@.len(),
        forall|i: int| 0 <= i < schedule@.len() ==> #[trigger] schedule@[i] < worker_count,
    ensures
        report.total_jobs == jobs@.len(),
        report.attempted == report.log@.len(),
        report.attempted <= jobs@.len(),
        report.completed == succeeded_count(report.log@),
        report.statuses@.len() == worker_count,
        forall|k: int| 0 <= k < report.log@.len() ==> (#[trigger] report.log@[k]).index == k,
        forall|k: int| 0 <= k < report.log@.len() ==> (#[trigger] report.log@[k]).worker
            < worker_count,
        forall|k: int| 0 <= k < report.log@.len() ==> (#[trigger] report.log@[k]).succeeded == (
        outcomes@[k] is Success),
        forall|w: int| 0 <= w < worker_count ==> !((#[trigger] report.statuses@[w]) is Active),
        forall|k1: int, k2: int|
            0 <= k1 < k2 < report.log@.len() && (#[trigger] report.log@[k1]).worker == (
            #[trigger] report.log@[k2]).worker ==> report.log@[k1].succeeded,
        forall|w: int|
            0 <= w < worker_count ==> ((#[trigger] report.statuses@[w]) is Stopped <==> exists|k: int|
                0 <= k < report.log@.len() && (#[trigger] report.log@[k]).worker == w
                    && !report.log@[k].succeeded),
        (exists|w: int| 0 <= w < worker_count && (#[trigger] report.statuses@[w]) is Done)
            ==> report.attempted == jobs@.len(),
        (forall|j: int| 0 <= j < outcomes@.len() ==> (#[trigger] outcomes@[j]) is Success)
            ==> report.attempted == jobs@.len(),
        jobs@.len() == 0 ==> report.attempted == 0,
{
    let mut d = Dispatcher::new(jobs, config, worker_count, outcomes);
    d.run_all(schedule);
    proof {
        lemma_succeeded_count_bounds(d.log@);
        if forall|j: int| 0 <= j < d.outcomes@.len() ==> (#[trigger] d.outcomes@[j]) is Success {
            // no job can have failed, so no worker is Stopped; all are Done,
            // and a Done worker saw the list drained
            assert forall|v: int|
                0 <= v < d.statuses@.len() implies !((#[trigger] d.statuses@[v]) is Stopped) by {
                if d.statuses@[v] is Stopped {
                    let k = choose|k: int|
                        0 <= k < d.log@.len() && (#[trigger] d.log@[k]).worker == v
                            && !d.log@[k].succeeded;
                    assert(d.outcomes@[k] is Success);
                }
            }
            assert(d.statuses@[0] is Done);
        }
    }
    let total_jobs = d.state.jobs.len();
    let attempted = d.log.len();
    RunReport { total_jobs, attempted, completed: d.completed, statuses: d.statuses, log: d.log }
}

/// Exactly-once claim: in a run history whose k-th claim reserved job index k
/// — what [`run`] guarantees of every history it produces — no job index is
/// claimed twice, and the set of claimed indices is exactly the set of the
/// first `log.len()` job indices: none is omitted.
pub proof fn lemma_exactly_once(log: Seq<ClaimRecord>)
    requires
        forall|k: int| 0 <= k < log.len() ==> (#[trigger] log[k]).index == k,
    ensures
        forall|k1: int, k2: int|
            0 <= k1 < k2 < log.len() ==> (#[trigger] log[k1]).index != (#[trigger] log[k2]).index,
        Set::new(|j: int| exists|k: int| 0 <= k < log.len() && (#[trigger] log[k]).index == j)
            =~= Set::new(|j: int| 0 <= j < log.len()),
{
    let claimed = Set::new(
        |j: int| exists|k: int| 0 <= k < log.len() && (#[trigger] log[k]).index == j,
    );
    let range = Set::new(|j: int| 0 <= j < log.len());
    assert forall|j: int| #[trigger] claimed.contains(j) implies range.contains(j) by {
        let k = choose|k: int| 0 <= k < log.len() && (#[trigger] log[k]).index == j;
        assert(log[k].index == k);
    }
    assert forall|j: int| #[trigger] range.contains(j) implies claimed.contains(j) by {
        assert(log[j].index == j);
    }
    assert(claimed =~= range);
}

/// Single-worker determinism: in a run with one worker — every record then
/// names a worker below 1, that is worker 0 — the jobs are claimed and
/// executed in index order 0, 1, 2, ...
pub proof fn lemma_single_worker_order(log: Seq<ClaimRecord>)
    requires
        forall|k: int| 0 <= k < log.len() ==> (#[trigger] log[k]).index == k,
        forall|k: int| 0 <= k < log.len() ==> (#[trigger] log[k]).worker < 1,
    ensures
        forall|k: int| 0 <= k < log.len() ==> (#[trigger] log[k]).worker == 0,
        forall|k1: int, k2: int|
            0 <= k1 < k2 < log.len() ==> (#[trigger] log[k1]).index < (#[trigger] log[k2]).index,
{
}

} // verus!
