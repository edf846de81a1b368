//! The engine command that archives one path.
//!
//! Every source is archived by one engine call: an "add" command with the zip
//! archive type, the engine's output sent to the error stream, the compression
//! level, the archive to write and the source to read.
//!
//! Naming policy: a directory's archive is named after the directory path as
//! given; a file's archive is named after the file's stem (its last component
//! without the extension), and after the whole path where the path has no
//! stem. Either way the archive extension is appended.

use vstd::prelude::*;
use crate::level::CompressionLevel;

verus! {

/// What a look at the file system says of a path.
#[derive(Clone, Copy, Debug, PartialEq, Eq, Structural)]
pub enum PathKind {
    /// A regular file.
    File,
    /// A directory.
    Directory,
    /// Nothing that can be archived: the path is missing, or is neither a
    /// regular file nor a directory.
    Invalid,
}

/// The kind of a path, from whether its metadata was found and what they say.
pub open spec fn classify_spec(found: bool, is_file: bool, is_dir: bool) -> PathKind {
    if found && is_file {
        PathKind::File
    } else if found && is_dir {
        PathKind::Directory
    } else {
        PathKind::Invalid
    }
}

/// Classifies a path from the answer of a metadata lookup: `found` tells
/// whether the lookup succeeded, `is_file` and `is_dir` what it reported.
pub fn classify(found: bool, is_file: bool, is_dir: bool) -> (kind: PathKind)
    ensures
        kind == classify_spec(found, is_file, is_dir),
{
    if !found {
        PathKind::Invalid
    } else if is_file {
        PathKind::File
    } else if is_dir {
        PathKind::Directory
    } else {
        PathKind::Invalid
    }
}

/// One call of the engine: the program to start and its arguments in order.
#[derive(Clone, Debug, PartialEq, Eq)]
pub struct Invocation {
    pub program: String,
    pub args: Vec<String>,
}

/// An [`Invocation`] as plain text.
pub struct InvocationView {
    pub program: Seq<char>,
    pub args: Seq<Seq<char>>,
}

/// The texts of a sequence of strings.
pub open spec fn texts(strings: Seq<String>) -> Seq<Seq<char>> {
    Seq::new(strings.len(), |i: int| strings[i]@)
}

impl View for Invocation {
    type V = InvocationView;

    open spec fn view(&self) -> InvocationView {
        InvocationView { program: self.program@, args: texts(self.args@) }
    }
}

/// The decimal digit for a number below ten.
pub open spec fn digit(d: nat) -> char {
    if d == 0 {
        '0'
    } else if d == 1 {
        '1'
    } else if d == 2 {
        '2'
    } else if d == 3 {
        '3'
    } else if d == 4 {
        '4'
    } else if d == 5 {
        '5'
    } else if d == 6 {
        '6'
    } else if d == 7 {
        '7'
    } else if d == 8 {
        '8'
    } else {
        '9'
    }
}

/// The level argument: `-mx=` and the level's digit.
pub open spec fn level_flag(level: nat) -> Seq<char> {
    "-mx="@.push(digit(level))
}

/// The archive named after `base`: `base` with the archive extension.
pub open spec fn archive_name(base: Seq<char>) -> Seq<char> {
    base + ".zip"@
}

/// The arguments that make the engine add `source` to `archive` at `level`.
pub open spec fn engine_args(level: nat, archive: Seq<char>, source: Seq<char>) -> Seq<Seq<char>> {
    seq!["a"@, "-tzip"@, "-bso2"@, level_flag(level), archive, source]
}

/// Whether `part` stands somewhere in `whole`, in one piece.
pub open spec fn is_part_of(part: Seq<char>, whole: Seq<char>) -> bool {
    exists|i: int|
        0 <= i && i + part.len() <= whole.len() && #[trigger] whole.subrange(i, i + part.len())
            == part
}

/// Whether `stem` can be the stem of `file_path`: a stem is a piece of the
/// path, and not empty.
pub open spec fn is_stem_of(stem: Option<Seq<char>>, file_path: Seq<char>) -> bool {
    stem matches Some(s) ==> s.len() > 0 && is_part_of(s, file_path)
}

/// What a file's archive is named after: its stem, or the whole path where
/// there is no stem.
pub open spec fn file_base(stem: Option<Seq<char>>, file_path: Seq<char>) -> Seq<char> {
    match stem {
        Some(s) => s,
        None => file_path,
    }
}

/// The engine call that archives the file at `file_path`, whose stem is `stem`.
pub open spec fn file_invocation(
    engine: Seq<char>,
    level: nat,
    stem: Option<Seq<char>>,
    file_path: Seq<char>,
) -> InvocationView {
    InvocationView {
        program: engine,
        args: engine_args(level, archive_name(file_base(stem, file_path)), file_path),
    }
}

/// Whether `call` archives the file at `file_path` under the name that a
/// stem of the path gives it, or under the name of the whole path.
pub open spec fn is_file_invocation(
    call: InvocationView,
    engine: Seq<char>,
    level: nat,
    file_path: Seq<char>,
) -> bool {
    exists|stem: Option<Seq<char>>|
        is_stem_of(stem, file_path) && call == #[trigger] file_invocation(
            engine,
            level,
            stem,
            file_path,
        )
}

/// The engine call that archives the directory at `dir_path`.
pub open spec fn directory_invocation(
    engine: Seq<char>,
    level: nat,
    dir_path: Seq<char>,
) -> InvocationView {
    InvocationView { program: engine, args: engine_args(level, archive_name(dir_path), dir_path) }
}

/// The stem of `path` as `std::path::Path::file_stem` gives it, where it is
/// valid Unicode.
///
/// Claimed of the result is what holds on every platform: the stem is a
/// portion of the path's last component, so it is a piece of the path, and it
/// is not empty. Which piece it is depends on how the platform splits a path
/// into components, and is not claimed.
#[verifier::external_body]
fn file_stem(path: &str) -> (stem: Option<String>)
    ensures
        stem matches Some(s) ==> s@.len() > 0 && is_part_of(s@, path@),
{
    std::path::Path::new(path).file_stem().and_then(|s| s.to_str()).map(String::from)
}

fn digit_text(level: CompressionLevel) -> (text: &'static str)
    ensures
        text@ == seq![digit(level@)],
{
    let value: u8 = level.value();
    proof {
        reveal_strlit("0");
        reveal_strlit("1");
        reveal_strlit("2");
        reveal_strlit("3");
        reveal_strlit("4");
        reveal_strlit("5");
        reveal_strlit("6");
        reveal_strlit("7");
        reveal_strlit("8");
        reveal_strlit("9");
    }
    let text: &'static str = if value == 0 {
        "0"
    } else if value == 1 {
        "1"
    } else if value == 2 {
        "2"
    } else if value == 3 {
        "3"
    } else if value == 4 {
        "4"
    } else if value == 5 {
        "5"
    } else if value == 6 {
        "6"
    } else if value == 7 {
        "7"
    } else if value == 8 {
        "8"
    } else {
        "9"
    };
    assert(text@ =~= seq![digit(level@)]);
    text
}

fn build_args(level: CompressionLevel, base: &str, source: &str) -> (args: Vec<String>)
    ensures
        texts(args@) == engine_args(level@, archive_name(base@), source@),
{
    let mut flag = String::from_str("-mx=");
    flag.append(digit_text(level));
    let mut archive = String::from_str(base);
    archive.append(".zip");
    let mut args: Vec<String> = Vec::new();
    args.push(String::from_str("a"));
    args.push(String::from_str("-tzip"));
    args.push(String::from_str("-bso2"));
    args.push(flag);
    args.push(archive);
    args.push(String::from_str(source));
    proof {
        let expected = engine_args(level@, archive_name(base@), source@);
        assert(args@[3]@ =~= level_flag(level@));
        assert forall|i: int| 0 <= i < 6 implies texts(args@)[i] == expected[i] by {}
        assert(texts(args@) =~= expected);
    }
    args
}

/// The engine call that archives the file at `file_path`, given the stem that
/// the platform found in the path.
pub fn compress_file_with_stem(
    engine: &str,
    level: CompressionLevel,
    stem: Option<&str>,
    file_path: &str,
) -> (call: Invocation)
    ensures
        call@ == file_invocation(
            engine@,
            level@,
            match stem {
                Some(s) => Some(s@),
                None => None,
            },
            file_path@,
        ),
{
    let base: &str = match stem {
        Some(s) => s,
        None => file_path,
    };
    Invocation { program: String::from_str(engine), args: build_args(level, base, file_path) }
}

/// The engine call that archives the file at `file_path`: the archive is
/// named after the stem that the platform finds in the path, which is a piece
/// of `file_path`, or after the whole path where it finds none.
pub fn compress_file(engine: &str, level: CompressionLevel, file_path: &str) -> (call: Invocation)
    ensures
        is_file_invocation(call@, engine@, level@, file_path@),
{
    match file_stem(file_path) {
        Some(stem) => {
            assert(is_stem_of(Some(stem@), file_path@));
            compress_file_with_stem(engine, level, Some(stem.as_str()), file_path)
        },
        None => {
            assert(is_stem_of(None, file_path@));
            compress_file_with_stem(engine, level, None, file_path)
        },
    }
}

/// The engine call that archives the directory at `dir_path`: the archive is
/// named after the path as given.
pub fn compress_directory(engine: &str, level: CompressionLevel, dir_path: &str) -> (call:
    Invocation)
    ensures
        call@ == directory_invocation(engine@, level@, dir_path@),
{
    Invocation { program: String::from_str(engine), args: build_args(level, dir_path, dir_path) }
}

} // verus!
