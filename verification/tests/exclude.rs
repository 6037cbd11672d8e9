use dirzip::exclude::ExcludeSet;

fn set(patterns: &[&str]) -> ExcludeSet {
    ExcludeSet::compile(&Some(patterns.iter().map(|p| p.to_string()).collect()))
}

#[test]
fn no_patterns_exclude_nothing() {
    let none = ExcludeSet::compile(&None);
    assert_eq!(none.len(), 0);
    assert!(!none.excludes("a.tmp"));
    let empty = set(&[]);
    assert_eq!(empty.len(), 0);
    assert!(!empty.excludes(""));
}

#[test]
fn star_pattern_excludes_by_extension() {
    let tmp = set(&["*.tmp"]);
    assert_eq!(tmp.len(), 1);
    assert!(tmp.excludes("a.tmp"));
    assert!(!tmp.excludes("a.txt"));
    assert!(tmp.excludes("sub/b.tmp"));
}

#[test]
fn any_one_pattern_suffices() {
    let both = set(&["*.log", "build/*"]);
    assert!(both.excludes("x.log"));
    assert!(both.excludes("build/out.o"));
    assert!(!both.excludes("src/main.rs"));
}

#[test]
fn question_mark_and_brackets_match_one_character() {
    let patterns = set(&["c?t", "k[!e]tteh", "[0-9].txt"]);
    assert!(patterns.excludes("cat"));
    assert!(!patterns.excludes("cart"));
    assert!(patterns.excludes("kitteh"));
    assert!(!patterns.excludes("ketteh"));
    assert!(patterns.excludes("7.txt"));
    assert!(!patterns.excludes("a.txt"));
}

#[test]
fn invalid_patterns_are_dropped_silently() {
    let patterns = set(&["[", "*.tmp", "a***b", "x[!"]);
    assert_eq!(patterns.len(), 1);
    assert!(patterns.excludes("a.tmp"));
    assert!(!patterns.excludes("["));
}

#[test]
fn only_invalid_patterns_exclude_nothing() {
    let patterns = set(&["[", "***"]);
    assert_eq!(patterns.len(), 0);
    assert!(!patterns.excludes("anything"));
}

#[test]
fn a_plain_pattern_matches_only_itself() {
    let plain = set(&["notes.txt"]);
    assert!(plain.excludes("notes.txt"));
    assert!(!plain.excludes("notes.txt.bak"));
    assert!(!plain.excludes("dir/notes.txt"));
}

#[test]
fn recursive_pattern_matches_below_a_directory() {
    let deep = set(&["node_modules/**"]);
    assert_eq!(deep.len(), 1);
    assert!(deep.excludes("node_modules/a/b.js"));
    assert!(!deep.excludes("src/a.js"));
}

#[test]
fn the_empty_name_is_matched_by_a_lone_star() {
    let star = set(&["*"]);
    assert!(star.excludes(""));
    let dot = set(&["?"]);
    assert!(!dot.excludes(""));
}

#[test]
fn compiled_patterns_keep_their_text_and_order() {
    let patterns = set(&["*.log", "[", "build/*", "***", "c?t"]);
    assert_eq!(patterns.texts(), vec!["*.log", "build/*", "c?t"]);
    assert_eq!(ExcludeSet::compile(&None).texts(), Vec::<String>::new());
}
