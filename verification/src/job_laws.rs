//! What holds of the engine calls of every batch.

use vstd::prelude::*;
use crate::archiver::{
    InvocationView, PathKind, archive_name, classify_spec, file_base, file_invocation, is_part_of,
    is_stem_of, level_flag,
};
use crate::job::{JobView, archives, plan_spec};
use crate::outcome::{OutcomeView, SourceKind, noun, outcome_of, report_line};

verus! {

/// Whether `name` ends in the archive extension.
pub open spec fn has_archive_extension(name: Seq<char>) -> bool {
    name.len() >= 4 && name.subrange(name.len() - 4, name.len() as int) == ".zip"@
}

/// Every archive name ends in the archive extension, after the name it was
/// derived from.
pub proof fn lemma_archive_name(base: Seq<char>)
    ensures
        has_archive_extension(archive_name(base)),
        archive_name(base).len() == base.len() + 4,
        archive_name(base).subrange(0, base.len() as int) == base,
{
    reveal_strlit(".zip");
    let name = archive_name(base);
    assert(name.subrange(name.len() - 4, name.len() as int) =~= ".zip"@);
    assert(name.subrange(0, base.len() as int) =~= base);
}

/// A path that is missing, or that is neither a regular file nor a
/// directory, is reported as an invalid argument and gets no job: no engine
/// call is made for it.
pub proof fn lemma_unusable_path_gets_no_call(
    engine: Seq<char>,
    level: nat,
    path: Seq<char>,
    found: bool,
    is_file: bool,
    is_dir: bool,
)
    requires
        !found || (!is_file && !is_dir),
    ensures
        classify_spec(found, is_file, is_dir) == PathKind::Invalid,
        plan_spec(engine, level, path, PathKind::Invalid) == Err::<JobView, OutcomeView>(
            OutcomeView::Invalid { path },
        ),
        report_line(OutcomeView::Invalid { path }) == "Invalid argument: "@ + path,
{
}

/// A regular file gets one job, and the job's engine call is the add command
/// with the zip archive type, the quiet flag and the configured level; its
/// archive is named after a stem of the path, which is a piece of the path
/// and not empty, or after the whole path, with the archive extension; its
/// source is the path as given.
pub proof fn lemma_file_gets_one_call(
    engine: Seq<char>,
    level: nat,
    path: Seq<char>,
    is_dir: bool,
    call: InvocationView,
)
    requires
        archives(call, JobView { engine, level, kind: SourceKind::File, path }),
    ensures
        classify_spec(true, true, is_dir) == PathKind::File,
        plan_spec(engine, level, path, PathKind::File) == Ok::<JobView, OutcomeView>(
            JobView { engine, level, kind: SourceKind::File, path },
        ),
        call.program == engine,
        call.args.len() == 6,
        call.args[0] == "a"@,
        call.args[1] == "-tzip"@,
        call.args[2] == "-bso2"@,
        call.args[3] == level_flag(level),
        exists|stem: Option<Seq<char>>|
            is_stem_of(stem, path) && call.args[4] == archive_name(
                #[trigger] file_base(stem, path),
            ),
        has_archive_extension(call.args[4]),
        call.args[5] == path,
{
    let stem = choose|stem: Option<Seq<char>>|
        is_stem_of(stem, path) && call == #[trigger] file_invocation(engine, level, stem, path);
    let base = file_base(stem, path);
    assert(call.args[4] == archive_name(base));
    lemma_archive_name(base);
}

/// A directory gets one job, and the job's engine call is the add command
/// with the zip archive type, the quiet flag and the configured level; its
/// archive is named after the directory path as given, with the archive
/// extension; its source is that same path.
pub proof fn lemma_directory_gets_one_call(
    engine: Seq<char>,
    level: nat,
    path: Seq<char>,
    call: InvocationView,
)
    requires
        archives(call, JobView { engine, level, kind: SourceKind::Directory, path }),
    ensures
        classify_spec(true, false, true) == PathKind::Directory,
        plan_spec(engine, level, path, PathKind::Directory) == Ok::<JobView, OutcomeView>(
            JobView { engine, level, kind: SourceKind::Directory, path },
        ),
        call.program == engine,
        call.args.len() == 6,
        call.args[0] == "a"@,
        call.args[1] == "-tzip"@,
        call.args[2] == "-bso2"@,
        call.args[3] == level_flag(level),
        call.args[4] == path + ".zip"@,
        has_archive_extension(call.args[4]),
        call.args[5] == path,
{
    lemma_archive_name(path);
}

/// Every engine run has an outcome and a report line: a failure of the
/// engine, to start or to succeed, is an outcome like any other.
pub proof fn lemma_every_run_is_reported(
    kind: SourceKind,
    path: Seq<char>,
    run: Result<bool, Seq<char>>,
)
    ensures
        outcome_of(kind, path, run) is Succeeded <==> run == Ok::<bool, Seq<char>>(true),
        outcome_of(kind, path, run) is Failed <==> run == Ok::<bool, Seq<char>>(false),
        outcome_of(kind, path, run) is NotStarted <==> run is Err,
        !(outcome_of(kind, path, run) is Invalid),
        run matches Err(detail) ==> report_line(outcome_of(kind, path, run))
            == "Failed to execute 7-Zip for "@ + path + ": "@ + detail,
        outcome_of(kind, path, run).path() == path,
{
}

/// Every report line identifies its item: the path stands in the line,
/// whatever the outcome.
pub proof fn lemma_report_names_the_path(outcome: OutcomeView)
    ensures
        is_part_of(outcome.path(), report_line(outcome)),
{
    let path = outcome.path();
    let line = report_line(outcome);
    let before: Seq<char> = match outcome {
        OutcomeView::Succeeded { kind, .. } => "Compression succeeded for "@ + noun(kind) + ": "@,
        OutcomeView::Failed { kind, .. } => "Compression failed for "@ + noun(kind) + ": "@,
        OutcomeView::NotStarted { .. } => "Failed to execute 7-Zip for "@,
        OutcomeView::Invalid { .. } => "Invalid argument: "@,
    };
    let start = before.len() as int;
    assert(line.subrange(start, start + path.len()) =~= path);
}

} // verus!
