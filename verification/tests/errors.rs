use dirzip::error::{Failure, ZipError};
use dirzip::text::decimal;

fn message(kind: Failure, detail: &str) -> String {
    ZipError::new(kind, detail.to_string()).message()
}

#[test]
fn pack_failures_carry_their_messages() {
    assert_eq!(message(Failure::CreateOutput, "denied"), "Failed to create zip file: denied");
    assert_eq!(message(Failure::Traversal, "not found"), "Failed to read source directory: not found");
    assert_eq!(message(Failure::PathResolution, "prefix not found"), "Path resolution error: prefix not found");
    assert_eq!(message(Failure::WriteEntry, "x"), "Failed to write zip entry: x");
    assert_eq!(message(Failure::OpenSource, "x"), "Failed to read source file: x");
    assert_eq!(message(Failure::ReadSource, "x"), "File stream read interrupted: x");
    assert_eq!(message(Failure::WriteData, "disk full"), "Failed to write data: disk full");
    assert_eq!(message(Failure::AddDirectory, "x"), "Failed to add directory: x");
    assert_eq!(message(Failure::Finalize, "x"), "Zip finalization failed: x");
}

#[test]
fn unpack_failures_carry_their_messages() {
    assert_eq!(message(Failure::OpenArchive, "missing"), "Failed to open zip file: missing");
    assert_eq!(message(Failure::ReadArchive, "x"), "Failed to read zip archive: x");
    assert_eq!(message(Failure::ReadEntry, "x"), "Failed to read zip entry: x");
    assert_eq!(message(Failure::CreateDirectory, "x"), "Failed to create directory: x");
    assert_eq!(message(Failure::CreateParent, "x"), "Failed to create parent directory: x");
    assert_eq!(message(Failure::CreateFile, "x"), "Failed to create output file: x");
    assert_eq!(message(Failure::Decompress, "x"), "Failed to decompress file content: x");
    assert_eq!(message(Failure::SetPermissions, "x"), "Failed to set file permissions: x");
}

#[test]
fn failures_without_detail_have_a_fixed_message() {
    assert_eq!(ZipError::bare(Failure::InvalidPath).message(), "Path contains invalid characters");
    assert_eq!(ZipError::bare(Failure::Unexpected).message(), "Unexpected event");
    assert_eq!(ZipError::bare(Failure::InvalidPath).detail, "");
}

#[test]
fn level_message_closes_its_bracket() {
    assert_eq!(
        message(Failure::LevelOutOfRange, "42"),
        "Compression level must be between 0 and 9 (current: 42)"
    );
}

#[test]
fn a_duplicate_equals_what_it_copies() {
    let error = ZipError::new(Failure::WriteData, "disk full".to_string());
    assert_eq!(error.duplicate(), error);
}

#[test]
fn decimal_writes_every_magnitude() {
    assert_eq!(decimal(0), "0");
    assert_eq!(decimal(7), "7");
    assert_eq!(decimal(10), "10");
    assert_eq!(decimal(-1), "-1");
    assert_eq!(decimal(1234567890), "1234567890");
    assert_eq!(decimal(-908), "-908");
    assert_eq!(decimal(i32::MAX), "2147483647");
    assert_eq!(decimal(i32::MIN), "-2147483648");
}

#[test]
fn decimal_agrees_with_the_standard_formatting() {
    let mut n: i32 = -100_000;
    while n <= 100_000 {
        assert_eq!(decimal(n), format!("{}", n));
        n += 37;
    }
}
