use dirzip::archiver::machine::{Archiver, PackPhase, COPY_BUFFER, WRITE_BUFFER};
use dirzip::archiver::protocol::{Located, PackAction, PackEvent};
use dirzip::error::{Failure, ZipError};
use dirzip::options::{Compression, EntryOptions};
use dirzip::platform::Platform;
use dirzip::{zip, ZipOptions};

const POSIX: Platform = Platform { separator: '/', permission_bits: true };
const OTHER: Platform = Platform { separator: '\\', permission_bits: false };

fn archiver(level: Option<i32>, exclude: &[&str], platform: Platform) -> Archiver {
    let options = ZipOptions {
        level,
        exclude: Some(exclude.iter().map(|p| p.to_string()).collect()),
    };
    let task = zip("tree".to_string(), "out.zip".to_string(), Some(options)).unwrap();
    Archiver::new(&task, platform)
}

fn walking(level: Option<i32>, exclude: &[&str], platform: Platform) -> Archiver {
    let mut machine = archiver(level, exclude, platform);
    assert_eq!(
        machine.step(PackEvent::Begin),
        PackAction::CreateOutput { path: "out.zip".to_string(), buffer: 65536 }
    );
    assert_eq!(machine.step(PackEvent::Completed), PackAction::NextEntry);
    assert_eq!(machine.phase(), PackPhase::Walking);
    machine
}

fn found(relative: &str) -> PackEvent {
    PackEvent::Entry(Located::Relative(relative.to_string()))
}

fn options(level: i64, unix_mode: Option<u32>) -> EntryOptions {
    EntryOptions { method: Compression::Deflated, level, large_file: true, unix_mode }
}

fn abort(kind: Failure, detail: &str) -> PackAction {
    PackAction::Abort(ZipError::new(kind, detail.to_string()))
}

/// Feeds one file of the given chunk sizes through the machine.
fn pack_file(machine: &mut Archiver, relative: &str, mode: Option<u32>, chunks: &[usize]) {
    assert_eq!(machine.step(found(relative)), PackAction::Inspect);
    let started = machine.step(PackEvent::Inspected { is_file: true, mode });
    assert!(matches!(started, PackAction::StartFile { .. }));
    assert_eq!(machine.step(PackEvent::Completed), PackAction::OpenSource);
    assert_eq!(
        machine.step(PackEvent::Completed),
        PackAction::ReadChunk { capacity: COPY_BUFFER }
    );
    for chunk in chunks {
        assert_eq!(machine.step(PackEvent::Chunk(*chunk)), PackAction::WriteChunk { len: *chunk });
        assert_eq!(
            machine.step(PackEvent::Completed),
            PackAction::ReadChunk { capacity: COPY_BUFFER }
        );
    }
    assert_eq!(machine.step(PackEvent::Chunk(0)), PackAction::NextEntry);
}

fn pack_directory(machine: &mut Archiver, relative: &str, mode: Option<u32>) {
    assert_eq!(machine.step(found(relative)), PackAction::Inspect);
    let added = machine.step(PackEvent::Inspected { is_file: false, mode });
    assert!(matches!(added, PackAction::AddDirectory { .. }));
    assert_eq!(machine.step(PackEvent::Completed), PackAction::NextEntry);
}

fn finish(machine: &mut Archiver) -> PackAction {
    assert_eq!(machine.step(PackEvent::Exhausted), PackAction::Finish);
    machine.step(PackEvent::Completed)
}

#[test]
fn buffers_hold_sixty_four_kibibytes() {
    assert_eq!(WRITE_BUFFER, 64 * 1024);
    assert_eq!(COPY_BUFFER, 64 * 1024);
}

#[test]
fn a_new_archiver_is_idle_and_has_counted_nothing() {
    let machine = archiver(None, &[], POSIX);
    assert_eq!(machine.phase(), PackPhase::Idle);
    assert_eq!(machine.file_count(), 0);
    assert!(!machine.has_failed());
}

#[test]
fn an_empty_tree_packs_to_zero_files() {
    let mut machine = walking(None, &[], POSIX);
    assert_eq!(finish(&mut machine), PackAction::Done { file_count: 0 });
    assert_eq!(machine.phase(), PackPhase::Done);
}

#[test]
fn three_files_and_two_directories_count_three() {
    let mut machine = walking(None, &[], POSIX);
    assert_eq!(machine.step(found("")), PackAction::Inspect);
    assert_eq!(
        machine.step(PackEvent::Inspected { is_file: false, mode: Some(0o40755) }),
        PackAction::NextEntry
    );
    pack_file(&mut machine, "a.txt", Some(0o100644), &[5]);
    pack_directory(&mut machine, "docs", Some(0o40755));
    pack_file(&mut machine, "docs/b.txt", Some(0o100644), &[65536, 65536, 12]);
    pack_directory(&mut machine, "empty", Some(0o40755));
    pack_file(&mut machine, "docs/c.bin", Some(0o100600), &[]);
    assert_eq!(machine.file_count(), 3);
    assert_eq!(finish(&mut machine), PackAction::Done { file_count: 3 });
}

#[test]
fn an_excluded_file_is_neither_packed_nor_counted() {
    let mut machine = walking(None, &["*.tmp"], POSIX);
    assert_eq!(machine.step(found("a.tmp")), PackAction::NextEntry);
    assert_eq!(machine.phase(), PackPhase::Walking);
    pack_file(&mut machine, "a.txt", None, &[3]);
    assert_eq!(finish(&mut machine), PackAction::Done { file_count: 1 });
}

#[test]
fn an_excluded_directory_does_not_hide_what_lies_below_it() {
    let mut machine = walking(None, &["cache"], POSIX);
    assert_eq!(machine.step(found("cache")), PackAction::NextEntry);
    pack_file(&mut machine, "cache/kept.txt", None, &[1]);
    assert_eq!(finish(&mut machine), PackAction::Done { file_count: 1 });
}

#[test]
fn exclusion_is_judged_on_the_stored_name() {
    let mut machine = walking(None, &["sub/*.tmp"], OTHER);
    assert_eq!(machine.step(found("sub\\x.tmp")), PackAction::NextEntry);
    assert_eq!(machine.step(found("sub\\x.txt")), PackAction::Inspect);
}

#[test]
fn advance_takes_the_verdict_as_given() {
    let mut machine = walking(None, &["*.tmp"], POSIX);
    assert_eq!(machine.advance(found("a.tmp"), false), PackAction::Inspect);
    assert_eq!(machine.phase(), PackPhase::Inspecting);
    let mut other = walking(None, &[], POSIX);
    assert_eq!(other.advance(found("a.txt"), true), PackAction::NextEntry);
    assert_eq!(other.phase(), PackPhase::Walking);
}

#[test]
fn a_file_is_started_under_its_relative_path_with_its_mode() {
    let mut machine = walking(Some(6), &[], POSIX);
    assert_eq!(machine.step(found("docs/read me.txt")), PackAction::Inspect);
    assert_eq!(
        machine.step(PackEvent::Inspected { is_file: true, mode: Some(0o100640) }),
        PackAction::StartFile {
            name: "docs/read me.txt".to_string(),
            options: options(6, Some(0o100640)),
        }
    );
    assert_eq!(machine.phase(), PackPhase::Starting);
}

#[test]
fn a_directory_gets_a_marker_with_its_mode() {
    let mut machine = walking(Some(0), &[], POSIX);
    assert_eq!(machine.step(found("docs/deep")), PackAction::Inspect);
    assert_eq!(
        machine.step(PackEvent::Inspected { is_file: false, mode: Some(0o40700) }),
        PackAction::AddDirectory {
            name: "docs/deep".to_string(),
            options: options(0, Some(0o40700)),
        }
    );
    assert_eq!(machine.phase(), PackPhase::Marking);
}

#[test]
fn the_source_directory_itself_is_never_added() {
    let mut machine = walking(None, &[], POSIX);
    assert_eq!(machine.step(found("")), PackAction::Inspect);
    assert_eq!(
        machine.step(PackEvent::Inspected { is_file: false, mode: Some(0o40755) }),
        PackAction::NextEntry
    );
    assert_eq!(machine.phase(), PackPhase::Walking);
    assert_eq!(machine.file_count(), 0);
}

#[test]
fn a_source_that_is_a_file_is_packed_under_the_empty_name() {
    let mut machine = walking(None, &[], POSIX);
    assert_eq!(machine.step(found("")), PackAction::Inspect);
    assert_eq!(
        machine.step(PackEvent::Inspected { is_file: true, mode: None }),
        PackAction::StartFile { name: String::new(), options: options(1, None) }
    );
}

#[test]
fn host_separators_become_slashes_in_stored_names() {
    let mut machine = walking(Some(9), &[], OTHER);
    assert_eq!(machine.step(found("docs\\deep\\a.txt")), PackAction::Inspect);
    assert_eq!(
        machine.step(PackEvent::Inspected { is_file: true, mode: None }),
        PackAction::StartFile { name: "docs/deep/a.txt".to_string(), options: options(9, None) }
    );
}

#[test]
fn no_mode_is_recorded_where_the_host_has_no_permission_bits() {
    let mut machine = walking(None, &[], OTHER);
    assert_eq!(machine.step(found("a")), PackAction::Inspect);
    assert_eq!(
        machine.step(PackEvent::Inspected { is_file: true, mode: Some(0o644) }),
        PackAction::StartFile { name: "a".to_string(), options: options(1, None) }
    );
}

#[test]
fn the_default_level_is_one() {
    let task = zip("tree".to_string(), "out.zip".to_string(), None).unwrap();
    let mut machine = Archiver::new(&task, POSIX);
    machine.step(PackEvent::Begin);
    machine.step(PackEvent::Completed);
    machine.step(found("f"));
    assert_eq!(
        machine.step(PackEvent::Inspected { is_file: true, mode: None }),
        PackAction::StartFile { name: "f".to_string(), options: options(1, None) }
    );
}

fn unreadable(cause: &str, depth: usize) -> PackEvent {
    PackEvent::Unreadable { cause: cause.to_string(), depth }
}

#[test]
fn a_missing_source_directory_fails_the_operation() {
    let mut machine = walking(None, &[], POSIX);
    let action = machine.step(unreadable("IO error for operation on tree: No such file", 0));
    assert_eq!(action, abort(Failure::Traversal, "IO error for operation on tree: No such file"));
    match action {
        PackAction::Abort(error) => assert_eq!(
            error.message(),
            "Failed to read source directory: IO error for operation on tree: No such file"
        ),
        other => panic!("unexpected action {:?}", other),
    }
    assert!(machine.has_failed());
    assert_eq!(
        machine.step(PackEvent::Exhausted),
        abort(Failure::Traversal, "IO error for operation on tree: No such file")
    );
    assert_eq!(
        machine.step(PackEvent::Completed),
        abort(Failure::Traversal, "IO error for operation on tree: No such file")
    );
}

#[test]
fn a_first_item_that_cannot_be_read_fails_whatever_its_depth() {
    let mut machine = walking(None, &[], POSIX);
    assert_eq!(machine.step(unreadable("denied", 3)), abort(Failure::Traversal, "denied"));
}

#[test]
fn a_source_directory_that_cannot_be_listed_fails_the_operation() {
    let mut machine = walking(None, &[], POSIX);
    assert_eq!(machine.step(found("")), PackAction::Inspect);
    assert_eq!(
        machine.step(PackEvent::Inspected { is_file: false, mode: Some(0o40000) }),
        PackAction::NextEntry
    );
    assert_eq!(machine.step(unreadable("denied", 0)), abort(Failure::Traversal, "denied"));
    assert!(machine.has_failed());
}

#[test]
fn an_unreadable_item_below_the_source_is_passed_over() {
    let mut machine = walking(None, &[], POSIX);
    assert_eq!(machine.step(found("")), PackAction::Inspect);
    assert_eq!(
        machine.step(PackEvent::Inspected { is_file: false, mode: None }),
        PackAction::NextEntry
    );
    assert_eq!(machine.step(unreadable("denied", 1)), PackAction::NextEntry);
    assert_eq!(machine.step(unreadable("denied", 7)), PackAction::NextEntry);
    assert_eq!(machine.phase(), PackPhase::Walking);
    assert!(!machine.has_failed());
    pack_file(&mut machine, "a", None, &[2]);
    assert_eq!(finish(&mut machine), PackAction::Done { file_count: 1 });
}

#[test]
fn an_excluded_first_item_counts_as_walked() {
    let mut machine = walking(None, &["*"], POSIX);
    assert_eq!(machine.step(found("")), PackAction::NextEntry);
    assert_eq!(machine.step(unreadable("denied", 2)), PackAction::NextEntry);
    assert_eq!(finish(&mut machine), PackAction::Done { file_count: 0 });
}

#[test]
fn output_that_cannot_be_created_fails_the_operation() {
    let mut machine = archiver(None, &[], POSIX);
    machine.step(PackEvent::Begin);
    assert_eq!(
        machine.step(PackEvent::Failed("permission denied".to_string())),
        abort(Failure::CreateOutput, "permission denied")
    );
    assert!(machine.has_failed());
}

#[test]
fn a_path_outside_the_source_fails_the_operation() {
    let mut machine = walking(None, &[], POSIX);
    assert_eq!(
        machine.step(PackEvent::Entry(Located::Outside("prefix not found".to_string()))),
        abort(Failure::PathResolution, "prefix not found")
    );
}

#[test]
fn a_path_that_is_not_text_fails_the_operation() {
    let mut machine = walking(None, &[], POSIX);
    let action = machine.step(PackEvent::Entry(Located::NotText));
    assert_eq!(action, abort(Failure::InvalidPath, ""));
    match action {
        PackAction::Abort(error) => assert_eq!(error.message(), "Path contains invalid characters"),
        other => panic!("unexpected action {:?}", other),
    }
}

#[test]
fn each_step_of_a_file_fails_with_its_own_failure() {
    let mut machine = walking(None, &[], POSIX);
    machine.step(found("a"));
    machine.step(PackEvent::Inspected { is_file: true, mode: None });
    assert_eq!(machine.step(PackEvent::Failed("dup".to_string())), abort(Failure::WriteEntry, "dup"));

    let mut machine = walking(None, &[], POSIX);
    machine.step(found("a"));
    machine.step(PackEvent::Inspected { is_file: true, mode: None });
    machine.step(PackEvent::Completed);
    assert_eq!(machine.step(PackEvent::Failed("gone".to_string())), abort(Failure::OpenSource, "gone"));

    let mut machine = walking(None, &[], POSIX);
    machine.step(found("a"));
    machine.step(PackEvent::Inspected { is_file: true, mode: None });
    machine.step(PackEvent::Completed);
    machine.step(PackEvent::Completed);
    assert_eq!(machine.step(PackEvent::Failed("io".to_string())), abort(Failure::ReadSource, "io"));

    let mut machine = walking(None, &[], POSIX);
    machine.step(found("a"));
    machine.step(PackEvent::Inspected { is_file: true, mode: None });
    machine.step(PackEvent::Completed);
    machine.step(PackEvent::Completed);
    machine.step(PackEvent::Chunk(10));
    assert_eq!(machine.step(PackEvent::Failed("full".to_string())), abort(Failure::WriteData, "full"));
    assert_eq!(machine.file_count(), 0);
}

#[test]
fn a_marker_that_cannot_be_added_fails_the_operation() {
    let mut machine = walking(None, &[], POSIX);
    machine.step(found("d"));
    machine.step(PackEvent::Inspected { is_file: false, mode: None });
    assert_eq!(machine.step(PackEvent::Failed("x".to_string())), abort(Failure::AddDirectory, "x"));
}

#[test]
fn a_failed_finalization_reports_no_count() {
    let mut machine = walking(None, &[], POSIX);
    pack_file(&mut machine, "a", None, &[1]);
    assert_eq!(machine.step(PackEvent::Exhausted), PackAction::Finish);
    assert_eq!(machine.step(PackEvent::Failed("x".to_string())), abort(Failure::Finalize, "x"));
    assert_eq!(machine.step(PackEvent::Completed), abort(Failure::Finalize, "x"));
}

#[test]
fn a_failure_is_reported_again_whatever_follows() {
    let mut machine = walking(None, &[], POSIX);
    machine.step(PackEvent::Entry(Located::NotText));
    for event in [PackEvent::Begin, PackEvent::Completed, PackEvent::Exhausted, found("a"), PackEvent::Chunk(0)] {
        assert_eq!(machine.step(event), abort(Failure::InvalidPath, ""));
    }
}

#[test]
fn success_is_reported_again_whatever_follows() {
    let mut machine = walking(None, &[], POSIX);
    pack_file(&mut machine, "a", None, &[]);
    assert_eq!(finish(&mut machine), PackAction::Done { file_count: 1 });
    assert_eq!(machine.step(PackEvent::Failed("late".to_string())), PackAction::Done { file_count: 1 });
    assert_eq!(machine.step(found("b")), PackAction::Done { file_count: 1 });
    assert!(!machine.has_failed());
}

#[test]
fn a_report_that_answers_nothing_fails_the_operation() {
    let mut machine = archiver(None, &[], POSIX);
    assert_eq!(machine.step(PackEvent::Completed), abort(Failure::Unexpected, ""));

    let mut machine = walking(None, &[], POSIX);
    assert_eq!(machine.step(PackEvent::Chunk(4)), abort(Failure::Unexpected, ""));

    let mut machine = walking(None, &[], POSIX);
    machine.step(found("a"));
    assert_eq!(machine.step(PackEvent::Exhausted), abort(Failure::Unexpected, ""));
}

#[test]
fn a_read_larger_than_the_buffer_fails_the_operation() {
    let mut machine = walking(None, &[], POSIX);
    machine.step(found("a"));
    machine.step(PackEvent::Inspected { is_file: true, mode: None });
    machine.step(PackEvent::Completed);
    machine.step(PackEvent::Completed);
    assert_eq!(machine.step(PackEvent::Chunk(COPY_BUFFER + 1)), abort(Failure::Unexpected, ""));
}

#[test]
fn short_reads_are_written_as_they_come() {
    let mut machine = walking(None, &[], POSIX);
    pack_file(&mut machine, "a", None, &[1, 65536, 7, 1]);
    assert_eq!(machine.file_count(), 1);
}

#[test]
fn would_overflow_is_false_while_the_count_fits() {
    let mut machine = walking(None, &[], POSIX);
    machine.step(found("a"));
    machine.step(PackEvent::Inspected { is_file: true, mode: None });
    machine.step(PackEvent::Completed);
    machine.step(PackEvent::Completed);
    assert!(!machine.would_overflow(&PackEvent::Chunk(0)));
    assert!(!machine.would_overflow(&PackEvent::Chunk(1)));
}
