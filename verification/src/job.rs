//! A job: everything needed to archive one source.

use vstd::prelude::*;
use crate::archiver::{
    Invocation, InvocationView, PathKind, compress_directory, compress_file, directory_invocation,
    is_file_invocation,
};
use crate::level::CompressionLevel;
use crate::outcome::{CompressionOutcome, OutcomeView, SourceKind, outcome_of};
use crate::pool::ThreadPool;

verus! {

/// The description of one compression: the engine to call, the level, and the
/// source with its kind. A job is made by the submitter, handed to the pool
/// and run by the one worker that claims it.
#[derive(Clone, Debug, PartialEq, Eq)]
pub struct Job {
    pub engine: String,
    pub level: CompressionLevel,
    pub kind: SourceKind,
    pub path: String,
}

/// A [`Job`] as plain values.
pub struct JobView {
    pub engine: Seq<char>,
    pub level: nat,
    pub kind: SourceKind,
    pub path: Seq<char>,
}

impl View for Job {
    type V = JobView;

    open spec fn view(&self) -> JobView {
        JobView { engine: self.engine@, level: self.level@, kind: self.kind, path: self.path@ }
    }
}

/// Whether `call` is an engine call that archives the source of `job`.
pub open spec fn archives(call: InvocationView, job: JobView) -> bool {
    match job.kind {
        SourceKind::File => is_file_invocation(call, job.engine, job.level, job.path),
        SourceKind::Directory => call == directory_invocation(job.engine, job.level, job.path),
    }
}

/// What is done with a path of kind `kind`: a job for a file or a directory,
/// the outcome `Invalid` for anything else.
pub open spec fn plan_spec(
    engine: Seq<char>,
    level: nat,
    path: Seq<char>,
    kind: PathKind,
) -> Result<JobView, OutcomeView> {
    match kind {
        PathKind::File => Ok(JobView { engine, level, kind: SourceKind::File, path }),
        PathKind::Directory => Ok(JobView { engine, level, kind: SourceKind::Directory, path }),
        PathKind::Invalid => Err(OutcomeView::Invalid { path }),
    }
}

/// The plain values of a plan.
pub open spec fn plan_view(plan: Result<Job, CompressionOutcome>) -> Result<JobView, OutcomeView> {
    match plan {
        Ok(job) => Ok(job@),
        Err(outcome) => Err(outcome@),
    }
}

/// The plain values of an engine run.
pub open spec fn run_view(run: Result<bool, String>) -> Result<bool, Seq<char>> {
    match run {
        Ok(success) => Ok(success),
        Err(detail) => Err(detail@),
    }
}

/// Decides what is done with the input `path`, which was found to be of kind
/// `kind`: a file or a directory gives the job that archives it; anything
/// else gives the outcome `Invalid`, and no engine call.
pub fn plan(engine: &str, level: CompressionLevel, path: &str, kind: PathKind) -> (plan: Result<
    Job,
    CompressionOutcome,
>)
    ensures
        plan_view(plan) == plan_spec(engine@, level@, path@, kind),
{
    match kind {
        PathKind::File => Ok(
            Job {
                engine: String::from_str(engine),
                level,
                kind: SourceKind::File,
                path: String::from_str(path),
            },
        ),
        PathKind::Directory => Ok(
            Job {
                engine: String::from_str(engine),
                level,
                kind: SourceKind::Directory,
                path: String::from_str(path),
            },
        ),
        PathKind::Invalid => Err(CompressionOutcome::Invalid { path: String::from_str(path) }),
    }
}

impl Job {
    /// The one engine call that runs this job.
    pub fn invocation(&self) -> (call: Invocation)
        ensures
            archives(call@, self@),
    {
        match self.kind {
            SourceKind::File => compress_file(self.engine.as_str(), self.level, self.path.as_str()),
            SourceKind::Directory => compress_directory(
                self.engine.as_str(),
                self.level,
                self.path.as_str(),
            ),
        }
    }

    /// The outcome of this job, from what became of its engine call: `run`
    /// is `Ok` with the engine's verdict where the engine ran, and `Err` with
    /// the reason where it could not be started.
    pub fn outcome(&self, run: Result<bool, String>) -> (outcome: CompressionOutcome)
        ensures
            outcome@ == outcome_of(self@.kind, self@.path, run_view(run)),
    {
        match run {
            Ok(true) => CompressionOutcome::Succeeded { kind: self.kind, path: self.path.clone() },
            Ok(false) => CompressionOutcome::Failed { kind: self.kind, path: self.path.clone() },
            Err(detail) => CompressionOutcome::NotStarted { path: self.path.clone(), detail },
        }
    }
}

/// Handles one input path of a batch: a file or a directory becomes a job at
/// the end of the pool's queue, and nothing is returned; anything else leaves
/// the pool as it is, and its outcome `Invalid` is returned.
pub fn dispatch(
    pool: &mut ThreadPool<Job>,
    engine: &str,
    level: CompressionLevel,
    path: &str,
    kind: PathKind,
) -> (rejected: Option<CompressionOutcome>)
    requires
        old(pool).wf(),
        old(pool)@.can_submit(),
        old(pool)@.jobs.len() < usize::MAX,
    ensures
        final(pool).wf(),
        match plan_spec(engine@, level@, path@, kind) {
            Ok(job) => {
                &&& rejected is None
                &&& final(pool)@.jobs.len() == old(pool)@.jobs.len() + 1
                &&& final(pool)@ == old(pool)@.submit(final(pool)@.jobs.last())
                &&& final(pool)@.jobs.last()@ == job
            },
            Err(outcome) => {
                &&& final(pool)@ == old(pool)@
                &&& rejected matches Some(o)
                &&& o@ == outcome
            },
        },
{
    match plan(engine, level, path, kind) {
        Ok(job) => {
            pool.execute(job);
            None
        },
        Err(outcome) => Some(outcome),
    }
}

} // verus!
