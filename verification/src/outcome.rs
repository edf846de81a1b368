//! What became of one input path, and the line that reports it.

use vstd::prelude::*;

verus! {

/// The kind of a source that can be archived.
#[derive(Clone, Copy, Debug, PartialEq, Eq, Structural)]
pub enum SourceKind {
    File,
    Directory,
}

/// What became of one input path. None of these ends the batch: the other
/// paths are processed all the same.
#[derive(Clone, Debug, PartialEq, Eq)]
pub enum CompressionOutcome {
    /// The engine ran and reported success.
    Succeeded { kind: SourceKind, path: String },
    /// The engine ran and reported failure.
    Failed { kind: SourceKind, path: String },
    /// The engine could not be started; `detail` says why.
    NotStarted { path: String, detail: String },
    /// The path is neither a regular file nor a directory; no engine call
    /// was made for it.
    Invalid { path: String },
}

/// A [`CompressionOutcome`] as plain text.
pub enum OutcomeView {
    Succeeded { kind: SourceKind, path: Seq<char> },
    Failed { kind: SourceKind, path: Seq<char> },
    NotStarted { path: Seq<char>, detail: Seq<char> },
    Invalid { path: Seq<char> },
}

impl View for CompressionOutcome {
    type V = OutcomeView;

    open spec fn view(&self) -> OutcomeView {
        match *self {
            CompressionOutcome::Succeeded { kind, path } => OutcomeView::Succeeded {
                kind,
                path: path@,
            },
            CompressionOutcome::Failed { kind, path } => OutcomeView::Failed { kind, path: path@ },
            CompressionOutcome::NotStarted { path, detail } => OutcomeView::NotStarted {
                path: path@,
                detail: detail@,
            },
            CompressionOutcome::Invalid { path } => OutcomeView::Invalid { path: path@ },
        }
    }
}

impl OutcomeView {
    /// The path that the outcome is about.
    pub open spec fn path(self) -> Seq<char> {
        match self {
            OutcomeView::Succeeded { path, .. } => path,
            OutcomeView::Failed { path, .. } => path,
            OutcomeView::NotStarted { path, .. } => path,
            OutcomeView::Invalid { path } => path,
        }
    }
}

/// How a report names a source of this kind.
pub open spec fn noun(kind: SourceKind) -> Seq<char> {
    match kind {
        SourceKind::File => "file"@,
        SourceKind::Directory => "directory"@,
    }
}

/// The line that reports an outcome.
pub open spec fn report_line(outcome: OutcomeView) -> Seq<char> {
    match outcome {
        OutcomeView::Succeeded { kind, path } => "Compression succeeded for "@ + noun(kind) + ": "@
            + path,
        OutcomeView::Failed { kind, path } => "Compression failed for "@ + noun(kind) + ": "@
            + path,
        OutcomeView::NotStarted { path, detail } => "Failed to execute 7-Zip for "@ + path + ": "@
            + detail,
        OutcomeView::Invalid { path } => "Invalid argument: "@ + path,
    }
}

/// The outcome of an engine call for the source of kind `kind` at `path`:
/// `run` is `Ok` with the engine's verdict where the engine ran, and `Err`
/// with the reason where it could not be started.
pub open spec fn outcome_of(
    kind: SourceKind,
    path: Seq<char>,
    run: Result<bool, Seq<char>>,
) -> OutcomeView {
    match run {
        Ok(true) => OutcomeView::Succeeded { kind, path },
        Ok(false) => OutcomeView::Failed { kind, path },
        Err(detail) => OutcomeView::NotStarted { path, detail },
    }
}

fn noun_text(kind: SourceKind) -> (text: &'static str)
    ensures
        text@ == noun(kind),
{
    match kind {
        SourceKind::File => "file",
        SourceKind::Directory => "directory",
    }
}

impl CompressionOutcome {
    /// Whether the source was archived.
    pub fn is_success(&self) -> (success: bool)
        ensures
            success == (self@ is Succeeded),
    {
        match self {
            CompressionOutcome::Succeeded { .. } => true,
            _ => false,
        }
    }

    /// The line that reports this outcome.
    pub fn report(&self) -> (line: String)
        ensures
            line@ == report_line(self@),
    {
        match self {
            CompressionOutcome::Succeeded { kind, path } => {
                let mut line = String::from_str("Compression succeeded for ");
                line.append(noun_text(*kind));
                line.append(": ");
                line.append(path.as_str());
                line
            },
            CompressionOutcome::Failed { kind, path } => {
                let mut line = String::from_str("Compression failed for ");
                line.append(noun_text(*kind));
                line.append(": ");
                line.append(path.as_str());
                line
            },
            CompressionOutcome::NotStarted { path, detail } => {
                let mut line = String::from_str("Failed to execute 7-Zip for ");
                line.append(path.as_str());
                line.append(": ");
                line.append(detail.as_str());
                line
            },
            CompressionOutcome::Invalid { path } => {
                let mut line = String::from_str("Invalid argument: ");
                line.append(path.as_str());
                line
            },
        }
    }
}

} // verus!
