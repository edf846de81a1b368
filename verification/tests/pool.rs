use batchzip::pool::{Claim, ThreadPool, Worker};

/// Drives a closed pool to its end: the workers move in turn, and a running
/// worker needs `delay(ticket)` further turns before it reports its job
/// complete. Returns the jobs in the order in which they were claimed and the
/// tickets in the order in which they were completed.
fn drain(pool: &mut ThreadPool<u32>, delay: fn(usize) -> usize) -> (Vec<u32>, Vec<usize>) {
    let workers = pool.worker_count();
    let mut waits: Vec<usize> = vec![0; workers];
    let mut claimed: Vec<u32> = Vec::new();
    let mut completed: Vec<usize> = Vec::new();
    let mut turns = 0;
    while !pool.is_joined() {
        turns += 1;
        assert!(turns < 100_000, "the pool does not come to its end");
        for w in 0..workers {
            match pool.worker(w) {
                Worker::Idle => match pool.claim(w) {
                    Claim::Run { ticket, job } => {
                        claimed.push(job);
                        waits[w] = delay(ticket);
                    }
                    Claim::Wait => panic!("a closed pool tells no worker to wait"),
                    Claim::Exit => {}
                },
                Worker::Running { .. } => {
                    if waits[w] == 0 {
                        completed.push(pool.complete(w));
                    } else {
                        waits[w] -= 1;
                    }
                }
                Worker::Terminated => {}
            }
        }
    }
    (claimed, completed)
}

fn no_delay(_ticket: usize) -> usize {
    0
}

fn early_jobs_are_slow(ticket: usize) -> usize {
    if ticket < 2 {
        7
    } else {
        0
    }
}

fn uneven(ticket: usize) -> usize {
    (ticket * 5) % 4
}

#[test]
fn new_pool_is_idle_open_and_empty() {
    let pool: ThreadPool<u32> = ThreadPool::new(3);
    assert_eq!(pool.worker_count(), 3);
    for w in 0..3 {
        assert_eq!(pool.worker(w), Worker::Idle);
    }
    assert!(!pool.is_closed());
    assert!(!pool.is_joined());
    assert_eq!(pool.submitted(), 0);
    assert_eq!(pool.pending(), 0);
    assert_eq!(pool.completed(), 0);
}

#[test]
fn zero_workers_give_no_pool() {
    assert!(ThreadPool::<u32>::try_new(0).is_none());
}

#[test]
fn checked_pool_is_like_a_new_one() {
    for workers in [1usize, 2, 7] {
        let pool = ThreadPool::<u32>::try_new(workers).expect("a pool with workers");
        assert_eq!(pool.worker_count(), workers);
        for w in 0..workers {
            assert_eq!(pool.worker(w), Worker::Idle);
        }
        assert!(!pool.is_closed());
        assert_eq!(pool.submitted(), 0);
        assert_eq!(pool.completed(), 0);
    }
}

#[test]
fn new_worker_is_idle() {
    assert_eq!(Worker::new(), Worker::Idle);
}

#[test]
fn execute_only_queues() {
    let mut pool: ThreadPool<u32> = ThreadPool::new(1);
    pool.execute(10);
    pool.execute(20);
    assert_eq!(pool.submitted(), 2);
    assert_eq!(pool.pending(), 2);
    assert_eq!(pool.completed(), 0);
    assert_eq!(pool.worker(0), Worker::Idle);
    assert!(!pool.is_closed());
}

#[test]
fn idle_worker_waits_on_empty_open_queue() {
    let mut pool: ThreadPool<u32> = ThreadPool::new(2);
    assert_eq!(pool.claim(0), Claim::Wait);
    assert_eq!(pool.worker(0), Worker::Idle);
    pool.execute(5);
    assert_eq!(pool.claim(1), Claim::Run { ticket: 0, job: 5 });
    assert_eq!(pool.claim(0), Claim::Wait);
    assert_eq!(pool.worker(0), Worker::Idle);
    assert_eq!(pool.worker(1), Worker::Running { ticket: 0 });
}

#[test]
fn jobs_are_claimed_oldest_first() {
    let mut pool: ThreadPool<u32> = ThreadPool::new(3);
    pool.execute(10);
    pool.execute(20);
    pool.execute(30);
    assert_eq!(pool.claim(2), Claim::Run { ticket: 0, job: 10 });
    assert_eq!(pool.claim(0), Claim::Run { ticket: 1, job: 20 });
    assert_eq!(pool.claim(1), Claim::Run { ticket: 2, job: 30 });
    assert_eq!(pool.pending(), 0);
    assert_eq!(pool.submitted(), 3);
}

#[test]
fn complete_returns_the_ticket_and_frees_the_worker() {
    let mut pool: ThreadPool<u32> = ThreadPool::new(1);
    pool.execute(10);
    pool.execute(20);
    assert_eq!(pool.claim(0), Claim::Run { ticket: 0, job: 10 });
    assert_eq!(pool.complete(0), 0);
    assert_eq!(pool.worker(0), Worker::Idle);
    assert_eq!(pool.completed(), 1);
    assert_eq!(pool.claim(0), Claim::Run { ticket: 1, job: 20 });
    assert_eq!(pool.complete(0), 1);
    assert_eq!(pool.completed(), 2);
}

#[test]
fn join_closes_but_pending_jobs_still_run() {
    let mut pool: ThreadPool<u32> = ThreadPool::new(1);
    pool.execute(1);
    pool.join();
    assert!(pool.is_closed());
    assert!(!pool.is_joined());
    assert_eq!(pool.claim(0), Claim::Run { ticket: 0, job: 1 });
    assert!(!pool.is_joined());
    pool.complete(0);
    assert!(!pool.is_joined());
    assert_eq!(pool.claim(0), Claim::Exit);
    assert_eq!(pool.worker(0), Worker::Terminated);
    assert!(pool.is_joined());
}

#[test]
fn join_of_empty_pool_ends_when_workers_exit() {
    for workers in 1..=4 {
        let mut pool: ThreadPool<u32> = ThreadPool::new(workers);
        pool.join();
        for w in 0..workers {
            assert!(!pool.is_joined());
            assert_eq!(pool.claim(w), Claim::Exit);
        }
        assert!(pool.is_joined());
        assert_eq!(pool.submitted(), 0);
        assert_eq!(pool.completed(), 0);
    }
}

#[test]
fn join_twice_changes_nothing() {
    let mut pool: ThreadPool<u32> = ThreadPool::new(1);
    pool.execute(1);
    pool.join();
    pool.join();
    assert!(pool.is_closed());
    assert_eq!(pool.pending(), 1);
    assert_eq!(pool.worker(0), Worker::Idle);
}

#[test]
fn terminated_worker_stays_terminated() {
    let mut pool: ThreadPool<u32> = ThreadPool::new(2);
    pool.execute(1);
    pool.join();
    assert_eq!(pool.claim(0), Claim::Run { ticket: 0, job: 1 });
    assert_eq!(pool.claim(1), Claim::Exit);
    assert_eq!(pool.worker(1), Worker::Terminated);
    pool.complete(0);
    assert_eq!(pool.worker(1), Worker::Terminated);
    pool.join();
    assert_eq!(pool.worker(1), Worker::Terminated);
    assert_eq!(pool.claim(0), Claim::Exit);
    assert_eq!(pool.worker(1), Worker::Terminated);
    assert!(pool.is_joined());
}

#[test]
fn every_job_runs_exactly_once() {
    for workers in 1..=5usize {
        for jobs in [0u32, 1, 2, 3, 7, 20] {
            for delay in [no_delay as fn(usize) -> usize, early_jobs_are_slow, uneven] {
                let mut pool: ThreadPool<u32> = ThreadPool::new(workers);
                for j in 0..jobs {
                    pool.execute(100 + j);
                }
                pool.join();
                let (claimed, completed) = drain(&mut pool, delay);
                assert!(pool.is_joined());
                assert_eq!(pool.submitted(), jobs as usize);
                assert_eq!(pool.completed(), jobs as usize);
                assert_eq!(pool.pending(), 0);
                // the jobs come out in submission order, each once
                let expected: Vec<u32> = (0..jobs).map(|j| 100 + j).collect();
                assert_eq!(claimed, expected);
                // every ticket is completed once
                let mut sorted = completed.clone();
                sorted.sort();
                let tickets: Vec<usize> = (0..jobs as usize).collect();
                assert_eq!(sorted, tickets);
            }
        }
    }
}

#[test]
fn completion_order_need_not_be_submission_order() {
    let mut pool: ThreadPool<u32> = ThreadPool::new(2);
    for j in 0..5 {
        pool.execute(j);
    }
    pool.join();
    let (claimed, completed) = drain(&mut pool, early_jobs_are_slow);
    assert!(pool.is_joined());
    assert_eq!(claimed, vec![0, 1, 2, 3, 4]);
    assert_eq!(completed.len(), 5);
    let mut sorted = completed.clone();
    sorted.sort();
    assert_eq!(sorted, vec![0, 1, 2, 3, 4]);
}

#[test]
fn two_running_jobs_complete_in_either_order() {
    for first in [0usize, 1] {
        let second = 1 - first;
        let mut pool: ThreadPool<u32> = ThreadPool::new(2);
        pool.execute(10);
        pool.execute(20);
        pool.join();
        assert_eq!(pool.claim(0), Claim::Run { ticket: 0, job: 10 });
        assert_eq!(pool.claim(1), Claim::Run { ticket: 1, job: 20 });
        assert_eq!(pool.complete(first), first);
        assert_eq!(pool.complete(second), second);
        assert_eq!(pool.claim(0), Claim::Exit);
        assert_eq!(pool.claim(1), Claim::Exit);
        assert!(pool.is_joined());
        assert_eq!(pool.completed(), 2);
    }
}

#[test]
fn failed_job_does_not_stop_the_next() {
    // the jobs are outcomes: the first one fails
    let mut pool: ThreadPool<Result<u32, String>> = ThreadPool::new(1);
    pool.execute(Err("engine did not start".to_string()));
    pool.execute(Ok(2));
    pool.join();
    let mut failures = 0;
    let mut successes = 0;
    loop {
        match pool.claim(0) {
            Claim::Run { job, .. } => {
                match job {
                    Ok(_) => successes += 1,
                    Err(_) => failures += 1,
                }
                pool.complete(0);
                assert_eq!(pool.worker(0), Worker::Idle);
            }
            Claim::Wait => panic!("a closed pool tells no worker to wait"),
            Claim::Exit => break,
        }
    }
    assert!(pool.is_joined());
    assert_eq!(failures, 1);
    assert_eq!(successes, 1);
    assert_eq!(pool.completed(), 2);
}

#[test]
fn jobs_submitted_while_workers_run() {
    let mut pool: ThreadPool<u32> = ThreadPool::new(2);
    pool.execute(1);
    assert_eq!(pool.claim(0), Claim::Run { ticket: 0, job: 1 });
    assert_eq!(pool.claim(1), Claim::Wait);
    pool.execute(2);
    pool.execute(3);
    assert_eq!(pool.claim(1), Claim::Run { ticket: 1, job: 2 });
    assert_eq!(pool.complete(1), 1);
    assert_eq!(pool.claim(1), Claim::Run { ticket: 2, job: 3 });
    assert_eq!(pool.complete(0), 0);
    assert_eq!(pool.claim(0), Claim::Wait);
    pool.join();
    assert_eq!(pool.claim(0), Claim::Exit);
    assert!(!pool.is_joined());
    assert_eq!(pool.complete(1), 2);
    assert_eq!(pool.claim(1), Claim::Exit);
    assert!(pool.is_joined());
    assert_eq!(pool.submitted(), 3);
    assert_eq!(pool.completed(), 3);
}

#[test]
fn steps_to_the_end_of_a_join() {
    // two steps for each pending job and one for each worker to exit
    let workers = 3;
    let jobs = 4;
    let mut pool: ThreadPool<u32> = ThreadPool::new(workers);
    for j in 0..jobs {
        pool.execute(j);
    }
    pool.join();
    let mut steps = 0;
    while !pool.is_joined() {
        for w in 0..workers {
            match pool.worker(w) {
                Worker::Idle => {
                    pool.claim(w);
                    steps += 1;
                }
                Worker::Running { .. } => {
                    pool.complete(w);
                    steps += 1;
                }
                Worker::Terminated => {}
            }
        }
    }
    assert_eq!(steps, 2 * jobs as usize + workers);
}
