use dirzip::error::Failure;
use dirzip::options::{Compression, EntryOptions, DEFAULT_LEVEL, MAX_LEVEL, MIN_LEVEL};
use dirzip::platform::Platform;
use dirzip::{unzip, zip, ZipOptions};

fn with_level(level: Option<i32>) -> Option<ZipOptions> {
    Some(ZipOptions { level, exclude: None })
}

#[test]
fn level_ten_is_rejected() {
    let error = zip("src".to_string(), "out.zip".to_string(), with_level(Some(10))).unwrap_err();
    assert_eq!(error.kind, Failure::LevelOutOfRange);
    assert_eq!(error.detail, "10");
    assert_eq!(
        error.message(),
        "Compression level must be between 0 and 9 (current: 10)"
    );
}

#[test]
fn level_minus_one_is_rejected() {
    let error = zip("src".to_string(), "out.zip".to_string(), with_level(Some(-1))).unwrap_err();
    assert_eq!(error.kind, Failure::LevelOutOfRange);
    assert_eq!(
        error.message(),
        "Compression level must be between 0 and 9 (current: -1)"
    );
}

#[test]
fn extreme_levels_are_rejected_with_their_value() {
    let low = zip("s".to_string(), "o".to_string(), with_level(Some(i32::MIN))).unwrap_err();
    assert_eq!(
        low.message(),
        "Compression level must be between 0 and 9 (current: -2147483648)"
    );
    let high = zip("s".to_string(), "o".to_string(), with_level(Some(i32::MAX))).unwrap_err();
    assert_eq!(
        high.message(),
        "Compression level must be between 0 and 9 (current: 2147483647)"
    );
}

#[test]
fn levels_zero_to_nine_are_accepted() {
    for level in 0..=9 {
        let task = zip("src".to_string(), "out.zip".to_string(), with_level(Some(level))).unwrap();
        assert_eq!(task.options.level, Some(level));
        assert_eq!(task.options.resolved_level(), level);
        assert!(task.options.is_valid());
    }
}

#[test]
fn absent_options_give_the_default_level() {
    let task = zip("src".to_string(), "out.zip".to_string(), None).unwrap();
    assert_eq!(task.options.level, Some(1));
    assert_eq!(task.options.exclude, None);
    assert_eq!(task.source_dir, "src");
    assert_eq!(task.output_path, "out.zip");
}

#[test]
fn absent_level_resolves_to_the_default() {
    let options = ZipOptions { level: None, exclude: Some(vec!["*.tmp".to_string()]) };
    assert_eq!(options.resolved_level(), DEFAULT_LEVEL);
    assert!(options.is_valid());
    let task = zip("a".to_string(), "b".to_string(), Some(options.clone())).unwrap();
    assert_eq!(task.options, options);
}

#[test]
fn level_bounds_are_zero_and_nine() {
    assert_eq!(MIN_LEVEL, 0);
    assert_eq!(MAX_LEVEL, 9);
    assert_eq!(DEFAULT_LEVEL, 1);
    assert!(!ZipOptions { level: Some(MAX_LEVEL + 1), exclude: None }.is_valid());
    assert!(!ZipOptions { level: Some(MIN_LEVEL - 1), exclude: None }.is_valid());
}

#[test]
fn standard_options_are_level_one_without_patterns() {
    let options = ZipOptions::standard();
    assert_eq!(options, ZipOptions { level: Some(1), exclude: None });
}

#[test]
fn unzip_keeps_both_paths() {
    let task = unzip("in.zip".to_string(), "out".to_string());
    assert_eq!(task.source_path, "in.zip");
    assert_eq!(task.output_dir, "out");
}

#[test]
fn entry_options_keep_the_mode_where_the_host_has_permission_bits() {
    let posix = Platform { separator: '/', permission_bits: true };
    let options = EntryOptions::derive(7, &posix, Some(0o640));
    assert_eq!(
        options,
        EntryOptions {
            method: Compression::Deflated,
            level: 7,
            large_file: true,
            unix_mode: Some(0o640),
        }
    );
    assert_eq!(EntryOptions::derive(7, &posix, None).unix_mode, None);
}

#[test]
fn entry_options_drop_the_mode_where_the_host_has_none() {
    let other = Platform { separator: '\\', permission_bits: false };
    let options = EntryOptions::derive(0, &other, Some(0o755));
    assert_eq!(options.unix_mode, None);
    assert!(options.large_file);
    assert_eq!(options.method, Compression::Deflated);
    assert_eq!(other.mode(Some(0o755)), None);
}
