use rs_ffmpeg_wrapper::config::RunConfig;
use rs_ffmpeg_wrapper::dispatcher::run;
use rs_ffmpeg_wrapper::worker::{ProcessOutcome, WorkerStatus};

fn config() -> RunConfig {
    RunConfig {
        input_folder: String::from("./input"),
        output_folder: String::from("./output"),
        program: String::from("ffmpeg"),
        overwrite: false,
        format: String::from("mp3"),
    }
}

fn jobs(n: usize) -> Vec<String> {
    (0..n).map(|i| format!("song{}.wav", i)).collect()
}

fn all_success(n: usize) -> Vec<ProcessOutcome> {
    vec![ProcessOutcome::Success; n]
}

/// A schedule that cycles through the workers `rounds` times.
fn round_robin(workers: usize, rounds: usize) -> Vec<usize> {
    let mut s = Vec::new();
    for _ in 0..rounds {
        for w in 0..workers {
            s.push(w);
        }
    }
    s
}

#[test]
fn two_workers_claim_each_index_exactly_once() {
    // the example scenario: three jobs, two workers
    let names = vec![
        String::from("a.wav"),
        String::from("b.wav"),
        String::from("c.wav"),
    ];
    let schedule = round_robin(2, 4);
    let report = run(names, config(), 2, &schedule, all_success(3));
    assert_eq!(report.total_jobs, 3);
    assert_eq!(report.attempted, 3);
    assert_eq!(report.completed, 3);
    // the union of claimed indices is {0, 1, 2}, no duplicates, no omissions
    let mut seen = vec![false; 3];
    for record in &report.log {
        assert!(record.index < 3);
        assert!(!seen[record.index], "index claimed twice");
        seen[record.index] = true;
        assert!(record.worker < 2);
    }
    assert!(seen.iter().all(|s| *s));
    assert!(report
        .statuses
        .iter()
        .all(|s| *s == WorkerStatus::Done));
}

#[test]
fn empty_list_returns_immediately_with_zero_attempted() {
    for workers in [1usize, 4, 16] {
        let schedule = round_robin(workers, 2);
        let report = run(Vec::new(), config(), workers, &schedule, Vec::new());
        assert_eq!(report.total_jobs, 0);
        assert_eq!(report.attempted, 0);
        assert_eq!(report.completed, 0);
        assert!(report.log.is_empty());
        assert_eq!(report.statuses.len(), workers);
        assert!(report.statuses.iter().all(|s| *s == WorkerStatus::Done));
    }
}

#[test]
fn single_worker_claims_in_index_order() {
    let report = run(jobs(5), config(), 1, &Vec::new(), all_success(5));
    assert_eq!(report.attempted, 5);
    for (k, record) in report.log.iter().enumerate() {
        assert_eq!(record.worker, 0);
        assert_eq!(record.index, k);
    }
}

#[test]
fn failure_stops_only_the_failing_worker() {
    // two workers alternate; job 1 fails, so the worker that took it stops
    // and the other drains the rest of the list
    let outcomes = vec![
        ProcessOutcome::Success,
        ProcessOutcome::ExitedWithError,
        ProcessOutcome::Success,
        ProcessOutcome::Success,
    ];
    let schedule = round_robin(2, 4);
    let report = run(jobs(4), config(), 2, &schedule, outcomes);
    // every job was still attempted, exactly once
    assert_eq!(report.attempted, 4);
    assert_eq!(report.completed, 3);
    let failed: Vec<_> = report.log.iter().filter(|r| !r.succeeded).collect();
    assert_eq!(failed.len(), 1);
    assert_eq!(failed[0].index, 1);
    let failing_worker = failed[0].worker;
    assert_eq!(report.statuses[failing_worker], WorkerStatus::Stopped);
    assert_eq!(report.statuses[1 - failing_worker], WorkerStatus::Done);
    // after its failure, the stopped worker never claims again
    let fail_pos = report.log.iter().position(|r| !r.succeeded).unwrap();
    assert!(report.log[fail_pos + 1..]
        .iter()
        .all(|r| r.worker != failing_worker));
}

#[test]
fn all_workers_failing_leaves_jobs_unclaimed() {
    // one worker, first job fails: the rest of the list is never claimed
    let outcomes = vec![
        ProcessOutcome::SpawnFailed,
        ProcessOutcome::Success,
        ProcessOutcome::Success,
    ];
    let report = run(jobs(3), config(), 1, &Vec::new(), outcomes);
    assert_eq!(report.attempted, 1);
    assert_eq!(report.completed, 0);
    assert_eq!(report.statuses[0], WorkerStatus::Stopped);
}

#[test]
fn sixteen_workers_five_jobs_no_double_execution() {
    let schedule = round_robin(16, 1);
    let report = run(jobs(5), config(), 16, &schedule, all_success(5));
    // exactly 5 executions
    assert_eq!(report.attempted, 5);
    assert_eq!(report.completed, 5);
    let mut seen = vec![false; 5];
    for record in &report.log {
        assert!(!seen[record.index]);
        seen[record.index] = true;
    }
    // 11 workers reach NoMoreJobs without executing anything
    let executed: std::collections::HashSet<usize> =
        report.log.iter().map(|r| r.worker).collect();
    let idle = (0..16).filter(|w| !executed.contains(w)).count();
    assert_eq!(idle, 11);
    assert!(report.statuses.iter().all(|s| *s == WorkerStatus::Done));
}

#[test]
fn schedule_beyond_the_list_is_harmless() {
    let schedule = round_robin(3, 50);
    let report = run(jobs(2), config(), 3, &schedule, all_success(2));
    assert_eq!(report.attempted, 2);
    assert_eq!(report.completed, 2);
}
