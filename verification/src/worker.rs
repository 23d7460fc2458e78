use vstd::prelude::*;
use crate::job::Job;

verus! {

/// The coarse outcome of one external conversion: the process ran and exited
/// cleanly, it could not be started, or it terminated abnormally. This is all
/// the core reads of the external process.
#[derive(Clone, Copy, Debug, PartialEq, Eq, Structural)]
pub enum ProcessOutcome {
    Success,
    SpawnFailed,
    ExitedWithError,
}

/// Where a worker stands: claiming and executing jobs (`Active`), terminated
/// normally on an exhausted list (`Done`), or terminated early on a fatal
/// per-job error (`Stopped`).
#[derive(Clone, Copy, Debug, PartialEq, Eq, Structural)]
pub enum WorkerStatus {
    Active,
    Done,
    Stopped,
}

impl WorkerStatus {
    /// Whether the worker still claims jobs.
    pub fn is_active(&self) -> (r: bool)
        ensures
            r == (*self is Active),
    {
        match self {
            WorkerStatus::Active => true,
            WorkerStatus::Done => false,
            WorkerStatus::Stopped => false,
        }
    }
}

/// A worker treats any external-process failure as fatal to itself: after one,
/// it claims no further jobs. Other workers are unaffected and keep claiming.
pub fn outcome_is_fatal(outcome: &ProcessOutcome) -> (r: bool)
    ensures
        r == !(outcome is Success),
{
    match outcome {
        ProcessOutcome::Success => false,
        ProcessOutcome::SpawnFailed => true,
        ProcessOutcome::ExitedWithError => true,
    }
}

/// A progress event, emitted once per job start and once per job completion or
/// failure. Formatting and delivering it is the surrounding program's concern;
/// positions are reported one-based.
pub enum RunEvent {
    JobStarted { worker: usize, name: String, position: usize, total: usize },
    JobFinished { worker: usize, name: String, position: usize, total: usize },
    JobFailed { worker: usize, name: String },
}

impl RunEvent {
    /// The event announcing that `worker` begins `job`, the `index + 1`-th of
    /// `total`.
    pub fn started(worker: usize, job: &Job, total: usize) -> (e: RunEvent)
        requires
            job.index < total,
        ensures
            e == (RunEvent::JobStarted {
                worker,
                name: job.name,
                position: (job.index + 1) as usize,
                total,
            }),
    {
        RunEvent::JobStarted { worker, name: job.name.clone(), position: job.index + 1, total }
    }

    /// The event announcing that `worker` completed `job`.
    pub fn finished(worker: usize, job: &Job, total: usize) -> (e: RunEvent)
        requires
            job.index < total,
        ensures
            e == (RunEvent::JobFinished {
                worker,
                name: job.name,
                position: (job.index + 1) as usize,
                total,
            }),
    {
        RunEvent::JobFinished { worker, name: job.name.clone(), position: job.index + 1, total }
    }

    /// The event announcing that the external process failed on `job` and that
    /// `worker` stops.
    pub fn failed(worker: usize, job: &Job) -> (e: RunEvent)
        ensures
            e == (RunEvent::JobFailed { worker, name: job.name }),
    {
        RunEvent::JobFailed { worker, name: job.name.clone() }
    }
}

} // verus!
