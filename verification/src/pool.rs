//! The pool that the workers share.
//!
//! A [`ThreadPool`] holds the queue and the state of each worker; it runs no
//! thread itself. The threads of a program keep one pool behind a lock. Each
//! of them is one worker: it asks the pool for a job with
//! [`ThreadPool::claim`], runs the job with the lock released, and reports
//! back with [`ThreadPool::complete`]. The thread that submits calls
//! [`ThreadPool::execute`] for each job and then [`ThreadPool::join`]; the
//! join is over when [`ThreadPool::is_joined`] holds.

use std::collections::VecDeque;
use vstd::prelude::*;
use crate::pool_laws::{
    lemma_claim_inv, lemma_close_inv, lemma_complete_inv, lemma_counts, lemma_init_inv,
    lemma_submit_inv,
};
use crate::pool_model::{PoolState, WorkerState};

verus! {

/// One worker of a pool.
#[derive(Clone, Copy, Debug, PartialEq, Eq, Structural)]
pub enum Worker {
    /// Waiting for a job.
    Idle,
    /// Running the job with this ticket.
    Running { ticket: usize },
    /// Out of its loop for good.
    Terminated,
}

impl View for Worker {
    type V = WorkerState;

    open spec fn view(&self) -> WorkerState {
        match *self {
            Worker::Idle => WorkerState::Idle,
            Worker::Running { ticket } => WorkerState::Running(ticket as nat),
            Worker::Terminated => WorkerState::Terminated,
        }
    }
}

impl Worker {
    /// A worker that waits for its first job.
    pub fn new() -> (worker: Worker)
        ensures
            worker == Worker::Idle,
    {
        Worker::Idle
    }
}

/// The states of a sequence of workers.
pub open spec fn worker_states(workers: Seq<Worker>) -> Seq<WorkerState> {
    Seq::new(workers.len(), |w: int| workers[w]@)
}

/// The pool's answer to a worker that asks for a job.
#[derive(Debug, PartialEq, Eq)]
pub enum Claim<J> {
    /// Run this job, then report it complete.
    Run { ticket: usize, job: J },
    /// No job is pending, but more may come: ask again later.
    Wait,
    /// No job is pending and none will come: the worker has terminated.
    Exit,
}

/// A fixed set of workers and the queue of jobs that they share.
pub struct ThreadPool<J> {
    workers: Vec<Worker>,
    queue: VecDeque<J>,
    claimed: usize,
    completed: usize,
    closed: bool,
    jobs: Ghost<Seq<J>>,
    done: Ghost<Seq<nat>>,
}

impl<J> View for ThreadPool<J> {
    type V = PoolState<J>;

    closed spec fn view(&self) -> PoolState<J> {
        PoolState {
            workers: worker_states(self.workers@),
            jobs: self.jobs@,
            claimed: self.claimed as nat,
            done: self.done@,
            closed: self.closed,
        }
    }
}

impl<J> ThreadPool<J> {
    /// Whether the queue and the counters agree with the pool's state.
    pub closed spec fn consistent(&self) -> bool {
        &&& self.queue@ == self@.pending()
        &&& self.completed == self.done@.len()
    }

    /// Whether the pool is well formed: every pool that this module hands out
    /// is, and stays so.
    pub open spec fn wf(&self) -> bool {
        &&& self.consistent()
        &&& self@.inv()
        &&& self@.jobs.len() <= usize::MAX
    }

    /// A pool of `max_threads` idle workers with an empty, open queue. There
    /// is no pool without a worker: see [`Self::try_new`] for a number that
    /// may be zero.
    pub fn new(max_threads: usize) -> (pool: Self)
        requires
            max_threads > 0,
        ensures
            pool.wf(),
            pool@ == PoolState::<J>::init(max_threads as nat),
    {
        let mut workers: Vec<Worker> = Vec::new();
        let mut made: usize = 0;
        while made < max_threads
            invariant
                made <= max_threads,
                workers@.len() == made,
                forall|w: int| 0 <= w < made ==> workers@[w] == Worker::Idle,
            decreases max_threads - made,
        {
            workers.push(Worker::new());
            made = made + 1;
        }
        let pool = ThreadPool {
            workers,
            queue: VecDeque::new(),
            claimed: 0,
            completed: 0,
            closed: false,
            jobs: Ghost(Seq::empty()),
            done: Ghost(Seq::empty()),
        };
        proof {
            lemma_init_inv::<J>(max_threads as nat);
            assert(pool@.workers =~= PoolState::<J>::init(max_threads as nat).workers);
            assert(pool.queue@ =~= pool@.pending());
        }
        pool
    }

    /// A pool of `max_threads` idle workers, or nothing where `max_threads`
    /// is zero: no pool is made without a worker, so no job can be submitted
    /// to one.
    pub fn try_new(max_threads: usize) -> (pool: Option<Self>)
        ensures
            pool is None <==> max_threads == 0,
            pool matches Some(p) ==> p.wf() && p@ == PoolState::<J>::init(max_threads as nat),
    {
        if max_threads == 0 {
            None
        } else {
            Some(Self::new(max_threads))
        }
    }

    /// Puts `job` last in the queue. The call does not wait for the job to
    /// run.
    pub fn execute(&mut self, job: J)
        requires
            old(self).wf(),
            old(self)@.can_submit(),
            old(self)@.jobs.len() < usize::MAX,
        ensures
            final(self).wf(),
            final(self)@ == old(self)@.submit(job),
    {
        let ghost submitted = job;
        proof {
            lemma_submit_inv(self@, submitted);
        }
        self.queue.push_back(job);
        self.jobs = Ghost(self.jobs@.push(submitted));
        proof {
            assert(self.queue@ =~= self@.pending());
            assert(self@ =~= old(self)@.submit(submitted));
        }
    }

    /// Closes the queue: no job will be submitted any more, and each worker
    /// terminates when it finds the queue empty. The join is over when
    /// [`Self::is_joined`] holds.
    pub fn join(&mut self)
        requires
            old(self).wf(),
        ensures
            final(self).wf(),
            final(self)@ == old(self)@.close(),
    {
        proof {
            lemma_close_inv(self@);
        }
        self.closed = true;
        proof {
            assert(self@ =~= old(self)@.close());
        }
    }

    /// The idle worker `worker` asks for a job. It gets the oldest pending
    /// job, if there is one, and is then running; it terminates, if there is
    /// none and the queue is closed; else it stays idle and is told to wait.
    pub fn claim(&mut self, worker: usize) -> (claim: Claim<J>)
        requires
            old(self).wf(),
            old(self)@.can_claim(worker as int),
        ensures
            final(self).wf(),
            final(self)@ == old(self)@.claim(worker as int),
            match claim {
                Claim::Run { ticket, job } => {
                    &&& old(self)@.claimed < old(self)@.jobs.len()
                    &&& ticket == old(self)@.claimed
                    &&& job == old(self)@.jobs[ticket as int]
                },
                Claim::Wait => old(self)@.claimed == old(self)@.jobs.len() && !old(self)@.closed,
                Claim::Exit => old(self)@.claimed == old(self)@.jobs.len() && old(self)@.closed,
            },
    {
        proof {
            lemma_claim_inv(self@, worker as int);
        }
        match self.queue.pop_front() {
            Some(job) => {
                let ticket: usize = self.claimed;
                self.workers.set(worker, Worker::Running { ticket });
                self.claimed = ticket + 1;
                proof {
                    assert(self@.workers =~= old(self)@.claim(worker as int).workers);
                    assert(self.queue@ =~= self@.pending());
                }
                Claim::Run { ticket, job }
            },
            None => {
                if self.closed {
                    self.workers.set(worker, Worker::Terminated);
                    proof {
                        assert(self@.workers =~= old(self)@.claim(worker as int).workers);
                    }
                    Claim::Exit
                } else {
                    Claim::Wait
                }
            },
        }
    }

    /// The running worker `worker` reports its job complete, whatever became
    /// of the job, and is idle again. Returns the job's ticket.
    pub fn complete(&mut self, worker: usize) -> (ticket: usize)
        requires
            old(self).wf(),
            old(self)@.can_complete(worker as int),
        ensures
            final(self).wf(),
            final(self)@ == old(self)@.complete(worker as int),
            old(self)@.workers[worker as int] == WorkerState::Running(ticket as nat),
    {
        proof {
            lemma_complete_inv(self@, worker as int);
            lemma_counts(self@.complete(worker as int));
        }
        let ticket: usize = match self.workers[worker] {
            Worker::Running { ticket } => ticket,
            _ => 0,
        };
        self.workers.set(worker, Worker::Idle);
        self.completed = self.completed + 1;
        self.done = Ghost(self.done@.push(ticket as nat));
        proof {
            assert(self@.workers =~= old(self)@.complete(worker as int).workers);
            assert(self@ =~= old(self)@.complete(worker as int));
        }
        ticket
    }

    /// Whether every worker has terminated. From then on every submitted job
    /// has been completed exactly once.
    pub fn is_joined(&self) -> (joined: bool)
        requires
            self.wf(),
        ensures
            joined == self@.joined(),
    {
        let mut w: usize = 0;
        while w < self.workers.len()
            invariant
                w <= self.workers@.len(),
                forall|v: int| 0 <= v < w ==> self.workers@[v] == Worker::Terminated,
            decreases self.workers@.len() - w,
        {
            match self.workers[w] {
                Worker::Terminated => {},
                _ => {
                    assert(!(self@.workers[w as int] is Terminated));
                    return false;
                },
            }
            w = w + 1;
        }
        assert forall|v: int| 0 <= v < self@.workers.len() implies #[trigger] self@.workers[v]
            is Terminated by {
            assert(self.workers@[v] == Worker::Terminated);
        }
        true
    }

    /// The number of workers, which never changes.
    pub fn worker_count(&self) -> (count: usize)
        ensures
            count == self@.workers.len(),
    {
        self.workers.len()
    }

    /// The state of the worker `worker`.
    pub fn worker(&self, worker: usize) -> (state: Worker)
        requires
            worker < self@.workers.len(),
        ensures
            state@ == self@.workers[worker as int],
    {
        self.workers[worker]
    }

    /// Whether the queue was closed.
    pub fn is_closed(&self) -> (closed: bool)
        ensures
            closed == self@.closed,
    {
        self.closed
    }

    /// The number of jobs submitted so far.
    pub fn submitted(&self) -> (count: usize)
        requires
            self.wf(),
        ensures
            count == self@.jobs.len(),
    {
        self.claimed + self.queue.len()
    }

    /// The number of jobs that no worker has claimed yet.
    pub fn pending(&self) -> (count: usize)
        requires
            self.wf(),
        ensures
            count == self@.pending().len(),
    {
        self.queue.len()
    }

    /// The number of jobs reported complete so far.
    pub fn completed(&self) -> (count: usize)
        requires
            self.wf(),
        ensures
            count == self@.done.len(),
    {
        self.completed
    }
}

} // verus!
