use multirun::command::{classify_status, prepare_command, Outcome};
use multirun::job::{enumerate_jobs, Job};
use multirun::pool::{JobReport, JobStatus, PoolCreationError, ThreadPool};
use multirun::queue::{TakeResult, WorkQueue};

fn job(index: usize, input: &str) -> Job {
    Job { index, input: input.to_string() }
}

/// Drive the pool the way a set of workers would, sequentially: keep taking
/// until the pool says to finish, prepare each job's command with `template`,
/// pretend the spawn came back with `status_of(program)`, and record every
/// report. Returns how many commands were "spawned".
fn drive(
    pool: &mut ThreadPool,
    template: &str,
    status_of: impl Fn(&str) -> Result<Option<i32>, String>,
) -> usize {
    let mut spawned = 0;
    loop {
        match pool.take() {
            TakeResult::Taken(taken) => match prepare_command(template, &taken) {
                None => {
                    pool.record(JobReport {
                        index: taken.index,
                        input: taken.input,
                        status: JobStatus::SkippedEmptyCommand,
                    });
                }
                Some(cmd) => {
                    spawned += 1;
                    let outcome = classify_status(status_of(&cmd.program));
                    pool.record(JobReport {
                        index: taken.index,
                        input: taken.input,
                        status: JobStatus::Ran(outcome),
                    });
                }
            },
            TakeResult::Waiting => panic!("queue was closed before the drive started"),
            TakeResult::Finished => break,
        }
    }
    spawned
}

#[test]
fn zero_workers_is_a_construction_error() {
    let r = ThreadPool::new(0);
    assert!(matches!(r, Err(PoolCreationError::ZeroWorkers)));
    assert_eq!(
        PoolCreationError::ZeroWorkers.message(),
        "ThreadPool size must be greater than 0"
    );
}

#[test]
fn a_positive_worker_count_builds_an_empty_open_pool() {
    let pool = ThreadPool::new(4).expect("positive count");
    assert_eq!(pool.workers(), 4);
    assert!(pool.accepting());
    assert!(!pool.is_drained());
    assert!(pool.report_log().is_empty());
}

#[test]
fn the_queue_hands_jobs_out_in_fifo_order_exactly_once() {
    let mut q = WorkQueue::new();
    q.push(job(1, "a"));
    q.push(job(2, "b"));
    assert_eq!(q.pending_len(), 2);
    match q.take() {
        TakeResult::Taken(j) => assert_eq!(j.index, 1),
        _ => panic!("a job was pending"),
    }
    match q.take() {
        TakeResult::Taken(j) => assert_eq!(j.index, 2),
        _ => panic!("a job was pending"),
    }
    assert_eq!(q.pending_len(), 0);
    assert!(matches!(q.take(), TakeResult::Waiting));
    q.close();
    assert!(matches!(q.take(), TakeResult::Finished));
    assert!(q.is_closed_now());
}

#[test]
fn scenario_echo_on_three_inputs() {
    let lines = vec!["a".to_string(), "b".to_string(), "c".to_string()];
    let jobs = enumerate_jobs(lines).expect("three lines");
    let mut pool = ThreadPool::new(2).expect("two workers");
    for j in jobs {
        assert!(pool.accepting());
        pool.submit(j);
    }
    pool.close();
    let spawned = drive(&mut pool, "echo {}", |_| Ok(Some(0)));
    assert_eq!(spawned, 3);
    assert!(pool.is_drained());
    let reports = pool.report_log();
    assert_eq!(reports.len(), 3);
    for r in reports {
        assert!(matches!(r.status, JobStatus::Ran(Outcome::Exited(0))));
    }
    let mut inputs: Vec<String> = reports.iter().map(|r| r.input.clone()).collect();
    inputs.sort();
    assert_eq!(inputs, vec!["a".to_string(), "b".to_string(), "c".to_string()]);
    let mut indices: Vec<usize> = reports.iter().map(|r| r.index).collect();
    indices.sort();
    assert_eq!(indices, vec![1, 2, 3]);
}

#[test]
fn scenario_a_failing_command_reports_its_exit_code() {
    let jobs = enumerate_jobs(vec!["x".to_string()]).expect("one line");
    let mut pool = ThreadPool::new(1).expect("one worker");
    for j in jobs {
        pool.submit(j);
    }
    pool.close();
    let spawned = drive(&mut pool, "false {}", |program| {
        assert_eq!(program, "false");
        Ok(Some(1))
    });
    assert_eq!(spawned, 1);
    let reports = pool.report_log();
    assert_eq!(reports.len(), 1);
    assert_eq!(reports[0].input, "x");
    assert!(matches!(reports[0].status, JobStatus::Ran(Outcome::Exited(1))));
}

#[test]
fn scenario_a_missing_binary_reports_spawn_failure_and_the_run_goes_on() {
    let jobs = enumerate_jobs(vec!["x".to_string()]).expect("one line");
    let mut pool = ThreadPool::new(1).expect("one worker");
    for j in jobs {
        pool.submit(j);
    }
    pool.close();
    let spawned = drive(&mut pool, "nonexistent-binary-xyz {}", |_| {
        Err("No such file or directory".to_string())
    });
    assert_eq!(spawned, 1);
    assert!(pool.is_drained());
    let reports = pool.report_log();
    assert!(matches!(
        reports[0].status,
        JobStatus::Ran(Outcome::SpawnFailed(ref reason)) if reason == "No such file or directory"
    ));
}

#[test]
fn a_blank_expansion_is_skipped_and_blocks_nothing() {
    let mut pool = ThreadPool::new(1).expect("one worker");
    pool.submit(job(1, "   "));
    pool.submit(job(2, "ok"));
    pool.close();
    let spawned = drive(&mut pool, "{}", |program| {
        assert_eq!(program, "ok");
        Ok(Some(0))
    });
    assert_eq!(spawned, 1);
    let reports = pool.report_log();
    assert_eq!(reports.len(), 2);
    assert!(matches!(reports[0].status, JobStatus::SkippedEmptyCommand));
    assert!(matches!(reports[1].status, JobStatus::Ran(Outcome::Exited(0))));
}

#[test]
fn every_submitted_job_is_taken_once_under_any_worker_count() {
    for workers in 1..=5 {
        let mut pool = ThreadPool::new(workers).expect("positive count");
        let n = 7;
        for i in 1..=n {
            pool.submit(job(i, &format!("line{}", i)));
        }
        pool.close();
        let spawned = drive(&mut pool, "echo {}", |_| Ok(Some(0)));
        assert_eq!(spawned, n);
        assert!(pool.is_drained());
        let mut indices: Vec<usize> = pool.report_log().iter().map(|r| r.index).collect();
        indices.sort();
        let expected: Vec<usize> = (1..=n).collect();
        assert_eq!(indices, expected);
    }
}
