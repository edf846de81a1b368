//! The worker pool as a state machine.
//!
//! A pool is a fixed set of workers that share one queue of jobs. Jobs are
//! numbered in the order of their submission; a job's number is its ticket.
//! A worker claims the oldest pending job, runs it, reports it complete and
//! claims again; once the queue is closed and empty it terminates.
//!
//! The transitions say nothing of which worker moves next: every interleaving
//! of workers is a sequence of these steps.

use vstd::prelude::*;

verus! {

/// Where a worker stands in its loop.
pub enum WorkerState {
    /// Waiting for a job.
    Idle,
    /// Running the job with this ticket.
    Running(nat),
    /// Out of its loop for good.
    Terminated,
}

/// The state of a pool whose jobs are of type `J`.
pub struct PoolState<J> {
    /// The state of each worker.
    pub workers: Seq<WorkerState>,
    /// Every job submitted so far, in submission order.
    pub jobs: Seq<J>,
    /// How many jobs were handed to workers: the jobs with smaller tickets
    /// were claimed, the others are pending.
    pub claimed: nat,
    /// The tickets of the completed jobs, in the order of completion.
    pub done: Seq<nat>,
    /// Whether the queue was closed to further jobs.
    pub closed: bool,
}

impl<J> PoolState<J> {
    /// A fresh pool of `workers` idle workers.
    pub open spec fn init(workers: nat) -> Self {
        PoolState {
            workers: Seq::new(workers, |w: int| WorkerState::Idle),
            jobs: Seq::empty(),
            claimed: 0,
            done: Seq::empty(),
            closed: false,
        }
    }

    /// The jobs that no worker has claimed yet, oldest first.
    pub open spec fn pending(self) -> Seq<J> {
        self.jobs.subrange(self.claimed as int, self.jobs.len() as int)
    }

    /// Whether some worker is running the job with ticket `t`.
    pub open spec fn running(self, t: nat) -> bool {
        exists|w: int|
            0 <= w < self.workers.len() && #[trigger] self.workers[w] == WorkerState::Running(t)
    }

    /// Whether the job with ticket `t` is with a worker or behind it.
    pub open spec fn started(self, t: nat) -> bool {
        self.running(t) || self.done.contains(t)
    }

    /// Whether every worker has terminated: what a join waits for.
    pub open spec fn joined(self) -> bool {
        forall|w: int| 0 <= w < self.workers.len() ==> #[trigger] self.workers[w] is Terminated
    }

    /// What holds of every pool that was made by `init` and moved by the
    /// transitions below:
    /// - there is a worker, and no more jobs are claimed than were submitted;
    /// - a worker runs a job that was claimed, and no two workers the same job;
    /// - a completed job was claimed, and is completed once;
    /// - no worker runs a completed job;
    /// - every claimed job is running or completed;
    /// - a worker has terminated only if the queue is closed and empty.
    pub open spec fn inv(self) -> bool {
        &&& self.workers.len() >= 1
        &&& self.claimed <= self.jobs.len()
        &&& forall|w: int|
            0 <= w < self.workers.len() ==> (#[trigger] self.workers[w] matches WorkerState::Running(
                t,
            ) ==> t < self.claimed)
        &&& forall|v: int, w: int|
            0 <= v < w < self.workers.len() && #[trigger] self.workers[v] is Running
                ==> self.workers[v] != #[trigger] self.workers[w]
        &&& forall|k: int| 0 <= k < self.done.len() ==> #[trigger] self.done[k] < self.claimed
        &&& self.done.no_duplicates()
        &&& forall|w: int, k: int|
            0 <= w < self.workers.len() && 0 <= k < self.done.len() ==> #[trigger] self.workers[w]
                != WorkerState::Running(#[trigger] self.done[k])
        &&& forall|t: nat| t < self.claimed ==> #[trigger] self.started(t)
        &&& forall|w: int|
            0 <= w < self.workers.len() && #[trigger] self.workers[w] is Terminated ==> self.closed
                && self.claimed == self.jobs.len()
    }

    /// A job can be submitted until the queue is closed.
    pub open spec fn can_submit(self) -> bool {
        !self.closed
    }

    /// Submitting `job` puts it last in the queue.
    pub open spec fn submit(self, job: J) -> Self {
        PoolState { jobs: self.jobs.push(job), ..self }
    }

    /// Closing the queue: no job will be submitted any more.
    pub open spec fn close(self) -> Self {
        PoolState { closed: true, ..self }
    }

    /// An idle worker can ask for a job.
    pub open spec fn can_claim(self, worker: int) -> bool {
        0 <= worker < self.workers.len() && self.workers[worker] is Idle
    }

    /// An idle worker asks for a job: it gets the oldest pending job, if there
    /// is one; it terminates, if there is none and the queue is closed; else
    /// it stays idle.
    pub open spec fn claim(self, worker: int) -> Self {
        if self.claimed < self.jobs.len() {
            PoolState {
                workers: self.workers.update(worker, WorkerState::Running(self.claimed)),
                claimed: self.claimed + 1,
                ..self
            }
        } else if self.closed {
            PoolState { workers: self.workers.update(worker, WorkerState::Terminated), ..self }
        } else {
            self
        }
    }

    /// A running worker can report its job complete.
    pub open spec fn can_complete(self, worker: int) -> bool {
        0 <= worker < self.workers.len() && self.workers[worker] is Running
    }

    /// Whether the worker has a step that it can take: any worker that has
    /// not terminated has one.
    pub open spec fn can_move(self, worker: int) -> bool {
        self.can_claim(worker) || self.can_complete(worker)
    }

    /// A running worker reports its job complete, whatever became of the job,
    /// and is idle again.
    pub open spec fn complete(self, worker: int) -> Self {
        PoolState {
            workers: self.workers.update(worker, WorkerState::Idle),
            done: self.done.push(self.workers[worker]->Running_0),
            ..self
        }
    }
}

/// One step of a pool.
pub enum Event<J> {
    /// A job is submitted.
    Submit(J),
    /// The queue is closed.
    Close,
    /// The worker with this index asks for a job.
    Claim(int),
    /// The worker with this index reports its job complete.
    Complete(int),
}

impl<J> PoolState<J> {
    /// Whether `event` can happen in this state.
    pub open spec fn enabled(self, event: Event<J>) -> bool {
        match event {
            Event::Submit(_) => self.can_submit(),
            Event::Close => true,
            Event::Claim(worker) => self.can_claim(worker),
            Event::Complete(worker) => self.can_complete(worker),
        }
    }

    /// The state after `event`.
    pub open spec fn step(self, event: Event<J>) -> Self {
        match event {
            Event::Submit(job) => self.submit(job),
            Event::Close => self.close(),
            Event::Claim(worker) => self.claim(worker),
            Event::Complete(worker) => self.complete(worker),
        }
    }

    /// Whether the events of `trace` can happen one after the other, starting
    /// in this state.
    pub open spec fn admits(self, trace: Seq<Event<J>>) -> bool
        decreases trace.len(),
    {
        trace.len() > 0 ==> self.enabled(trace[0]) && self.step(trace[0]).admits(
            trace.subrange(1, trace.len() as int),
        )
    }

    /// The state after the events of `trace`.
    pub open spec fn run(self, trace: Seq<Event<J>>) -> Self
        decreases trace.len(),
    {
        if trace.len() == 0 {
            self
        } else {
            self.step(trace[0]).run(trace.subrange(1, trace.len() as int))
        }
    }
}

/// The jobs that `trace` submits, in order.
pub open spec fn submissions<J>(trace: Seq<Event<J>>) -> Seq<J>
    decreases trace.len(),
{
    if trace.len() == 0 {
        Seq::empty()
    } else {
        let rest = submissions(trace.subrange(1, trace.len() as int));
        match trace[0] {
            Event::Submit(job) => seq![job] + rest,
            _ => rest,
        }
    }
}

/// The steps that a worker in this state has before it, a job apart: a
/// running worker has to complete and to terminate, an idle one to terminate.
pub open spec fn steps_of(state: WorkerState) -> nat {
    match state {
        WorkerState::Idle => 1,
        WorkerState::Running(_) => 2,
        WorkerState::Terminated => 0,
    }
}

/// The sum of [`steps_of`] over `workers`.
pub open spec fn steps_of_all(workers: Seq<WorkerState>) -> nat
    decreases workers.len(),
{
    if workers.len() == 0 {
        0
    } else {
        steps_of_all(workers.drop_last()) + steps_of(workers.last())
    }
}

impl<J> PoolState<J> {
    /// The number of worker steps between this state and a joined pool, if
    /// no further job is submitted: two for each pending job, to claim and to
    /// complete it, and those that each worker has before it.
    pub open spec fn steps_left(self) -> nat {
        (2 * (self.jobs.len() - self.claimed) + steps_of_all(self.workers)) as nat
    }
}

} // verus!
