use batchzip::archiver::{
    classify, compress_directory, compress_file, compress_file_with_stem, Invocation, PathKind,
};
use batchzip::level::{CompressionLevel, MAX_LEVEL};

fn level(value: u8) -> CompressionLevel {
    CompressionLevel::new(value).unwrap()
}

fn strings(items: &[&str]) -> Vec<String> {
    items.iter().map(|s| s.to_string()).collect()
}

#[test]
fn level_accepts_zero_to_nine() {
    for value in 0..=9u8 {
        let l = CompressionLevel::new(value);
        assert!(l.is_some());
        assert_eq!(l.unwrap().value(), value);
    }
    assert_eq!(MAX_LEVEL, 9);
}

#[test]
fn level_rejects_ten_and_above() {
    assert!(CompressionLevel::new(10).is_none());
    assert!(CompressionLevel::new(11).is_none());
    assert!(CompressionLevel::new(255).is_none());
}

#[test]
fn classify_regular_file() {
    assert_eq!(classify(true, true, false), PathKind::File);
}

#[test]
fn classify_directory() {
    assert_eq!(classify(true, false, true), PathKind::Directory);
}

#[test]
fn classify_missing_path_is_invalid() {
    assert_eq!(classify(false, false, false), PathKind::Invalid);
    // what the flags say is ignored when the lookup failed
    assert_eq!(classify(false, true, false), PathKind::Invalid);
    assert_eq!(classify(false, false, true), PathKind::Invalid);
    assert_eq!(classify(false, true, true), PathKind::Invalid);
}

#[test]
fn classify_special_file_is_invalid() {
    assert_eq!(classify(true, false, false), PathKind::Invalid);
}

#[test]
fn classify_asks_for_file_first() {
    assert_eq!(classify(true, true, true), PathKind::File);
}

#[test]
fn file_call_with_stem_has_exact_arguments() {
    let call = compress_file_with_stem("/opt/7z", level(7), Some("a"), "a.txt");
    assert_eq!(
        call,
        Invocation {
            program: "/opt/7z".to_string(),
            args: strings(&["a", "-tzip", "-bso2", "-mx=7", "a.zip", "a.txt"]),
        }
    );
}

#[test]
fn file_call_without_stem_is_named_after_the_path() {
    let call = compress_file_with_stem("7z", level(7), None, "odd");
    assert_eq!(call.program, "7z");
    assert_eq!(call.args, strings(&["a", "-tzip", "-bso2", "-mx=7", "odd.zip", "odd"]));
}

#[test]
fn file_call_uses_the_stem_it_is_given() {
    let call = compress_file_with_stem("7z", level(3), Some("other"), "dir/name.ext");
    assert_eq!(call.args[4], "other.zip");
    assert_eq!(call.args[5], "dir/name.ext");
}

#[test]
fn file_call_strips_extension() {
    let call = compress_file("7z", level(7), "a.txt");
    assert_eq!(call.program, "7z");
    assert_eq!(call.args, strings(&["a", "-tzip", "-bso2", "-mx=7", "a.zip", "a.txt"]));
}

#[test]
fn file_call_strips_leading_directories() {
    let call = compress_file("7z", level(7), "docs/2024/report.pdf");
    assert_eq!(
        call.args,
        strings(&["a", "-tzip", "-bso2", "-mx=7", "report.zip", "docs/2024/report.pdf"])
    );
}

#[test]
fn file_call_strips_only_the_last_extension() {
    let call = compress_file("7z", level(7), "backup.tar.gz");
    assert_eq!(call.args[4], "backup.tar.zip");
    assert_eq!(call.args[5], "backup.tar.gz");
}

#[test]
fn file_call_keeps_name_without_extension() {
    let call = compress_file("7z", level(7), "Makefile");
    assert_eq!(call.args[4], "Makefile.zip");
}

#[test]
fn file_call_keeps_hidden_file_name() {
    let call = compress_file("7z", level(7), ".profile");
    assert_eq!(call.args[4], ".profile.zip");
}

#[test]
fn file_call_falls_back_to_the_path() {
    // a path that ends in `..` has no stem
    let call = compress_file("7z", level(7), "..");
    assert_eq!(call.args, strings(&["a", "-tzip", "-bso2", "-mx=7", "...zip", ".."]));
}

#[test]
fn file_archive_is_named_after_a_piece_of_the_path() {
    for path in ["a.txt", "docs/2024/report.pdf", "backup.tar.gz", ".profile", "x/y/.hidden.cfg"] {
        let call = compress_file("/opt/engine/7z", level(7), path);
        let base = call.args[4].strip_suffix(".zip").expect("the archive extension");
        assert!(!base.is_empty());
        assert!(path.contains(base));
    }
}

#[test]
fn file_call_is_one_call_with_six_arguments() {
    let call = compress_file("engine", level(5), "x.bin");
    assert_eq!(call.args.len(), 6);
    assert_eq!(call.args[0], "a");
    assert_eq!(call.args[1], "-tzip");
    assert_eq!(call.args[2], "-bso2");
    assert_eq!(call.args[3], "-mx=5");
    assert!(call.args[4].ends_with(".zip"));
    assert_eq!(call.args[5], "x.bin");
}

#[test]
fn directory_call_has_exact_arguments() {
    let call = compress_directory("/opt/7z", level(7), "dir1");
    assert_eq!(
        call,
        Invocation {
            program: "/opt/7z".to_string(),
            args: strings(&["a", "-tzip", "-bso2", "-mx=7", "dir1.zip", "dir1"]),
        }
    );
}

#[test]
fn directory_call_keeps_the_whole_path() {
    let call = compress_directory("7z", level(7), "photos/2024.summer");
    assert_eq!(call.args[4], "photos/2024.summer.zip");
    assert_eq!(call.args[5], "photos/2024.summer");
}

#[test]
fn level_flag_for_every_level() {
    let expected = [
        "-mx=0", "-mx=1", "-mx=2", "-mx=3", "-mx=4", "-mx=5", "-mx=6", "-mx=7", "-mx=8", "-mx=9",
    ];
    for value in 0..=9u8 {
        let call = compress_directory("7z", level(value), "d");
        assert_eq!(call.args[3], expected[value as usize]);
        let call = compress_file("7z", level(value), "f.txt");
        assert_eq!(call.args[3], expected[value as usize]);
    }
}

#[test]
fn empty_path_still_gives_a_call() {
    let call = compress_directory("7z", level(0), "");
    assert_eq!(call.args, strings(&["a", "-tzip", "-bso2", "-mx=0", ".zip", ""]));
}
