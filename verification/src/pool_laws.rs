//! What holds of every pool, whatever the order in which its workers move.

use vstd::prelude::*;
use crate::pool_model::{Event, PoolState, WorkerState, steps_of, steps_of_all, submissions};

verus! {

/// A fresh pool with at least one worker satisfies the invariant.
pub proof fn lemma_init_inv<J>(workers: nat)
    requires
        workers >= 1,
    ensures
        PoolState::<J>::init(workers).inv(),
        PoolState::<J>::init(workers).workers.len() == workers,
{
}

/// A pool needs a worker. Without one its join would be over at once, with
/// whatever was submitted never run; so a pool without workers breaks the
/// invariant, no well-formed pool is one, and nothing can be submitted to
/// one.
pub proof fn lemma_no_pool_without_workers<J>(s: PoolState<J>)
    requires
        s.workers.len() == 0,
    ensures
        s.joined(),
        !s.inv(),
        !PoolState::<J>::init(0).inv(),
{
}

/// Submitting a job to an open queue keeps the invariant.
pub proof fn lemma_submit_inv<J>(s: PoolState<J>, job: J)
    requires
        s.inv(),
        s.can_submit(),
    ensures
        s.submit(job).inv(),
{
    let n = s.submit(job);
    assert forall|t: nat| t < n.claimed implies #[trigger] n.started(t) by {
        assert(s.started(t));
    }
}

/// Closing the queue keeps the invariant.
pub proof fn lemma_close_inv<J>(s: PoolState<J>)
    requires
        s.inv(),
    ensures
        s.close().inv(),
{
    let n = s.close();
    assert forall|t: nat| t < n.claimed implies #[trigger] n.started(t) by {
        assert(s.started(t));
    }
}

/// A claim by an idle worker keeps the invariant.
pub proof fn lemma_claim_inv<J>(s: PoolState<J>, worker: int)
    requires
        s.inv(),
        s.can_claim(worker),
    ensures
        s.claim(worker).inv(),
{
    let n = s.claim(worker);
    if s.claimed < s.jobs.len() {
        assert forall|t: nat| t < n.claimed implies #[trigger] n.started(t) by {
            if t == s.claimed {
                assert(n.workers[worker] == WorkerState::Running(t));
            } else {
                assert(s.started(t));
                if s.running(t) {
                    let w = choose|w: int|
                        0 <= w < s.workers.len() && #[trigger] s.workers[w]
                            == WorkerState::Running(t);
                    assert(n.workers[w] == WorkerState::Running(t));
                }
            }
        }
    } else if s.closed {
        assert forall|t: nat| t < n.claimed implies #[trigger] n.started(t) by {
            assert(s.started(t));
            if s.running(t) {
                let w = choose|w: int|
                    0 <= w < s.workers.len() && #[trigger] s.workers[w] == WorkerState::Running(
                        t,
                    );
                assert(n.workers[w] == WorkerState::Running(t));
            }
        }
    }
}

/// A completion by a running worker keeps the invariant.
pub proof fn lemma_complete_inv<J>(s: PoolState<J>, worker: int)
    requires
        s.inv(),
        s.can_complete(worker),
    ensures
        s.complete(worker).inv(),
{
    let n = s.complete(worker);
    let ticket = s.workers[worker]->Running_0;
    assert(s.workers[worker] == WorkerState::Running(ticket));
    assert forall|t: nat| t < n.claimed implies #[trigger] n.started(t) by {
        if t == ticket {
            assert(n.done[n.done.len() - 1] == t);
        } else {
            assert(s.started(t));
            if s.running(t) {
                let w = choose|w: int|
                    0 <= w < s.workers.len() && #[trigger] s.workers[w] == WorkerState::Running(
                        t,
                    );
                assert(n.workers[w] == WorkerState::Running(t));
            } else {
                let k = choose|k: int| 0 <= k < s.done.len() && s.done[k] == t;
                assert(n.done[k] == t);
            }
        }
    }
    assert forall|i: int, j: int| 0 <= i < j < n.done.len() implies n.done[i] != n.done[j] by {
        if j == s.done.len() {
            assert(s.workers[worker] != WorkerState::Running(s.done[i]));
        }
    }
}

/// Every step that can happen keeps the invariant.
pub proof fn lemma_step_inv<J>(s: PoolState<J>, event: Event<J>)
    requires
        s.inv(),
        s.enabled(event),
    ensures
        s.step(event).inv(),
{
    match event {
        Event::Submit(job) => lemma_submit_inv(s, job),
        Event::Close => lemma_close_inv(s),
        Event::Claim(worker) => lemma_claim_inv(s, worker),
        Event::Complete(worker) => lemma_complete_inv(s, worker),
    }
}

/// No step changes the number of workers, reopens a closed queue or takes a
/// worker out of `Terminated`.
pub proof fn lemma_terminated_is_absorbing<J>(s: PoolState<J>, event: Event<J>, worker: int)
    requires
        s.enabled(event),
        0 <= worker < s.workers.len(),
    ensures
        s.step(event).workers.len() == s.workers.len(),
        s.closed ==> s.step(event).closed,
        s.workers[worker] is Terminated ==> s.step(event).workers[worker] is Terminated,
{
}

/// No step undoes a completion or loses a submitted job: the jobs and the
/// completed tickets only grow at their ends.
pub proof fn lemma_history_grows<J>(s: PoolState<J>, event: Event<J>)
    requires
        s.enabled(event),
    ensures
        s.jobs.is_prefix_of(s.step(event).jobs),
        s.done.is_prefix_of(s.step(event).done),
        s.claimed <= s.step(event).claimed,
{
}

/// A job is in one place at a time: pending, with exactly one worker, or
/// completed exactly once.
pub proof fn lemma_job_in_one_place<J>(s: PoolState<J>, t: nat)
    requires
        s.inv(),
        t < s.jobs.len(),
    ensures
        t >= s.claimed ==> !s.running(t) && !s.done.contains(t),
        t < s.claimed ==> (s.running(t) <==> !s.done.contains(t)),
        forall|v: int, w: int|
            0 <= v < s.workers.len() && 0 <= w < s.workers.len() && s.workers[v]
                == WorkerState::Running(t) && s.workers[w] == WorkerState::Running(t) ==> v == w,
        forall|i: int, j: int|
            0 <= i < s.done.len() && 0 <= j < s.done.len() && s.done[i] == t && s.done[j] == t
                ==> i == j,
{
    assert(t < s.claimed ==> s.started(t));
    assert forall|v: int, w: int|
        0 <= v < s.workers.len() && 0 <= w < s.workers.len() && s.workers[v]
            == WorkerState::Running(t) && s.workers[w] == WorkerState::Running(t) implies v
        == w by {
        if v < w {
            assert(s.workers[v] != s.workers[w]);
        } else if w < v {
            assert(s.workers[w] != s.workers[v]);
        }
    }
}

/// Once every worker has terminated, every submitted job was completed
/// exactly once: no job is pending or running, and the completed tickets are
/// the tickets of the submitted jobs, each of them once.
pub proof fn lemma_joined_ran_every_job_once<J>(s: PoolState<J>)
    requires
        s.inv(),
        s.joined(),
    ensures
        s.closed,
        s.pending().len() == 0,
        forall|t: nat| !s.running(t),
        s.done.len() == s.jobs.len(),
        s.done.no_duplicates(),
        forall|t: nat| t < s.jobs.len() <==> s.done.contains(t),
{
    assert(s.workers[0] is Terminated);
    assert forall|t: nat| !s.running(t) by {
        if s.running(t) {
            let w = choose|w: int|
                0 <= w < s.workers.len() && #[trigger] s.workers[w] == WorkerState::Running(t);
            assert(s.workers[w] is Terminated);
        }
    }
    assert forall|t: nat| t < s.jobs.len() implies s.done.contains(t) by {
        assert(s.started(t));
    }
    lemma_distinct_below(s.done, s.jobs.len());
}

/// A sequence of distinct numbers below `n` has at most `n` entries, and
/// exactly `n` where it holds every number below `n`.
proof fn lemma_distinct_below(s: Seq<nat>, n: nat)
    requires
        s.no_duplicates(),
        forall|k: int| 0 <= k < s.len() ==> #[trigger] s[k] < n,
    ensures
        s.len() <= n,
        (forall|t: nat| t < n ==> s.contains(t)) ==> s.len() == n,
    decreases n,
{
    if n == 0 {
        if s.len() > 0 {
            assert(s[0] < n);
        }
    } else {
        let top = (n - 1) as nat;
        if s.contains(top) {
            let i = choose|i: int| 0 <= i < s.len() && s[i] == top;
            let rest = s.remove(i);
            assert forall|k: int| 0 <= k < rest.len() implies #[trigger] rest[k] < top by {
                if k < i {
                    assert(rest[k] == s[k]);
                    assert(s[k] != s[i]);
                } else {
                    assert(rest[k] == s[k + 1]);
                    assert(s[k + 1] != s[i]);
                }
            }
            assert forall|a: int, b: int| 0 <= a < b < rest.len() implies rest[a] != rest[b] by {
                let a2 = if a < i {
                    a
                } else {
                    a + 1
                };
                let b2 = if b < i {
                    b
                } else {
                    b + 1
                };
                assert(rest[a] == s[a2] && rest[b] == s[b2]);
            }
            if forall|t: nat| t < n ==> s.contains(t) {
                assert forall|t: nat| t < top implies rest.contains(t) by {
                    assert(s.contains(t));
                    let k = choose|k: int| 0 <= k < s.len() && s[k] == t;
                    if k < i {
                        assert(rest[k] == t);
                    } else {
                        assert(rest[k - 1] == t);
                    }
                }
            }
            lemma_distinct_below(rest, top);
        } else {
            assert forall|k: int| 0 <= k < s.len() implies #[trigger] s[k] < top by {
                assert(s[k] < n);
                if s[k] == top {
                    assert(s.contains(top));
                }
            }
            lemma_distinct_below(s, top);
        }
    }
}

/// No more jobs are completed than were claimed, and no more claimed than
/// were submitted.
pub proof fn lemma_counts<J>(s: PoolState<J>)
    requires
        s.inv(),
    ensures
        s.done.len() <= s.claimed <= s.jobs.len(),
{
    lemma_distinct_below(s.done, s.claimed);
}

/// Replacing one worker's state changes the sum of the workers' steps by the
/// difference of the two states' steps.
pub proof fn lemma_steps_of_all_update(workers: Seq<WorkerState>, worker: int, state: WorkerState)
    requires
        0 <= worker < workers.len(),
    ensures
        steps_of_all(workers.update(worker, state)) + steps_of(workers[worker]) == steps_of_all(
            workers,
        ) + steps_of(state),
    decreases workers.len(),
{
    let updated = workers.update(worker, state);
    if worker == workers.len() - 1 {
        assert(updated.drop_last() =~= workers.drop_last());
    } else {
        assert(updated.drop_last() =~= workers.drop_last().update(worker, state));
        lemma_steps_of_all_update(workers.drop_last(), worker, state);
    }
}

/// The workers' steps sum to zero exactly when every worker has terminated.
pub proof fn lemma_steps_of_all_zero(workers: Seq<WorkerState>)
    ensures
        steps_of_all(workers) == 0 <==> forall|w: int|
            0 <= w < workers.len() ==> #[trigger] workers[w] is Terminated,
    decreases workers.len(),
{
    if workers.len() > 0 {
        let front = workers.drop_last();
        lemma_steps_of_all_zero(front);
        if steps_of_all(workers) == 0 {
            assert forall|w: int| 0 <= w < workers.len() implies #[trigger] workers[w]
                is Terminated by {
                if w < front.len() {
                    assert(front[w] is Terminated);
                }
            }
        }
        if forall|w: int| 0 <= w < workers.len() ==> #[trigger] workers[w] is Terminated {
            assert forall|w: int| 0 <= w < front.len() implies #[trigger] front[w]
                is Terminated by {
                assert(workers[w] is Terminated);
            }
            assert(workers.last() is Terminated);
        }
    }
}

/// A join comes to its end. In a pool that is not joined some worker can
/// move; once the queue is closed, each move of a worker brings the pool one
/// step nearer to being joined, and the pool is joined when no step is left.
pub proof fn lemma_join_completes<J>(s: PoolState<J>)
    requires
        s.inv(),
    ensures
        s.steps_left() == 0 <==> s.joined(),
        !s.joined() ==> exists|w: int| #[trigger] s.can_move(w),
        forall|w: int|
            s.closed && #[trigger] s.can_claim(w) ==> s.claim(w).steps_left() + 1
                == s.steps_left(),
        forall|w: int| #[trigger] s.can_complete(w) ==> s.complete(w).steps_left() + 1
            == s.steps_left(),
{
    lemma_steps_of_all_zero(s.workers);
    if s.joined() {
        assert(s.workers[0] is Terminated);
    }
    if !s.joined() {
        let w = choose|w: int| 0 <= w < s.workers.len() && !(#[trigger] s.workers[w] is Terminated);
        assert(s.can_move(w));
    }
    assert forall|w: int| s.closed && #[trigger] s.can_claim(w) implies s.claim(w).steps_left() + 1
        == s.steps_left() by {
        if s.claimed < s.jobs.len() {
            lemma_steps_of_all_update(s.workers, w, WorkerState::Running(s.claimed));
        } else {
            lemma_steps_of_all_update(s.workers, w, WorkerState::Terminated);
        }
    }
    assert forall|w: int| #[trigger] s.can_complete(w) implies s.complete(w).steps_left() + 1
        == s.steps_left() by {
        lemma_steps_of_all_update(s.workers, w, WorkerState::Idle);
    }
}

/// A job's failure is nothing to the pool: the step that reports a job
/// complete is the same for every outcome, and leaves the worker idle, so
/// that it can claim the next job.
pub proof fn lemma_worker_survives_job<J>(s: PoolState<J>, worker: int)
    requires
        s.inv(),
        s.can_complete(worker),
    ensures
        s.complete(worker).can_claim(worker),
        s.complete(worker).jobs == s.jobs,
        s.complete(worker).claimed == s.claimed,
        s.complete(worker).closed == s.closed,
        forall|w: int|
            0 <= w < s.workers.len() && w != worker ==> s.complete(worker).workers[w]
                == s.workers[w],
{
}

/// Jobs need not complete in the order of their submission: two running
/// workers can report in either order, and the two orders lead to states
/// that differ in the order of the completed tickets alone.
pub proof fn lemma_completions_in_either_order<J>(s: PoolState<J>, v: int, w: int)
    requires
        s.inv(),
        s.can_complete(v),
        s.can_complete(w),
        v != w,
    ensures
        s.complete(v).can_complete(w),
        s.complete(w).can_complete(v),
        s.complete(v).complete(w).inv(),
        s.complete(w).complete(v).inv(),
        s.complete(v).complete(w).workers == s.complete(w).complete(v).workers,
        s.complete(v).complete(w).done == s.done.push(s.workers[v]->Running_0).push(
            s.workers[w]->Running_0,
        ),
        s.complete(w).complete(v).done == s.done.push(s.workers[w]->Running_0).push(
            s.workers[v]->Running_0,
        ),
        s.workers[v]->Running_0 != s.workers[w]->Running_0,
{
    lemma_complete_inv(s, v);
    lemma_complete_inv(s, w);
    lemma_complete_inv(s.complete(v), w);
    lemma_complete_inv(s.complete(w), v);
    assert(s.complete(v).complete(w).workers =~= s.complete(w).complete(v).workers);
    if v < w {
        assert(s.workers[v] != s.workers[w]);
    } else {
        assert(s.workers[w] != s.workers[v]);
    }
}

/// The invariant holds after every sequence of steps from a state in which
/// it holds.
pub proof fn lemma_run_inv<J>(s: PoolState<J>, trace: Seq<Event<J>>)
    requires
        s.inv(),
        s.admits(trace),
    ensures
        s.run(trace).inv(),
        s.run(trace).workers.len() == s.workers.len(),
        s.run(trace).jobs == s.jobs + submissions(trace),
    decreases trace.len(),
{
    if trace.len() == 0 {
        assert(s.jobs + submissions(trace) =~= s.jobs);
    } else {
        let rest = trace.subrange(1, trace.len() as int);
        lemma_step_inv(s, trace[0]);
        lemma_run_inv(s.step(trace[0]), rest);
        match trace[0] {
            Event::Submit(job) => {
                assert(s.jobs.push(job) + submissions(rest) =~= s.jobs + (seq![job] + submissions(
                    rest,
                )));
            },
            _ => {},
        }
    }
}

/// Whatever the number of workers, the jobs and the order of the steps: when
/// a pool that started fresh is joined, every job that was submitted has been
/// completed exactly once.
pub proof fn lemma_every_schedule_runs_every_job_once<J>(workers: nat, trace: Seq<Event<J>>)
    requires
        workers >= 1,
        PoolState::<J>::init(workers).admits(trace),
        PoolState::<J>::init(workers).run(trace).joined(),
    ensures
        ({
            let end = PoolState::<J>::init(workers).run(trace);
            &&& end.jobs == submissions(trace)
            &&& end.done.len() == submissions(trace).len()
            &&& end.done.no_duplicates()
            &&& forall|t: nat| t < submissions(trace).len() <==> end.done.contains(t)
            &&& forall|t: nat| !end.running(t)
            &&& end.pending().len() == 0
        }),
{
    let start = PoolState::<J>::init(workers);
    lemma_init_inv::<J>(workers);
    lemma_run_inv(start, trace);
    assert(start.jobs + submissions(trace) =~= submissions(trace));
    lemma_joined_ran_every_job_once(start.run(trace));
}

} // verus!
