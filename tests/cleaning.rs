use lingo::cleanup::{cleanup_targets, dirs_of_paths, parent_dir, untracked_dirs};
use lingo::lock::{DependencyLock, PackageLock, PackageLockSource, PackageLockSourceType};
use lingo::tree::LibraryTargetProperties;
use lingo::version::Version;

fn record(name: &str) -> PackageLock {
    PackageLock {
        name: name.to_string(),
        version: Version::parse("1.0.0").unwrap(),
        source: PackageLockSource {
            source_type: PackageLockSourceType::PATH,
            uri: format!("../{}", name),
            rev: None,
        },
        checksum: format!("h-{}", name),
        include_path: ".".to_string(),
        properties: LibraryTargetProperties::new(),
    }
}

fn strings(v: &[&str]) -> Vec<String> {
    v.iter().map(|s| s.to_string()).collect()
}

#[test]
fn cleanup_removes_untracked_package_directory() {
    let lock = DependencyLock { dependencies: vec![record("foo")] };
    let untracked = untracked_dirs(&strings(&["foo/Lingo.toml", "foo/src/lib.lf"]));
    assert_eq!(cleanup_targets(&lock, &untracked), strings(&["foo"]));
}

#[test]
fn cleanup_leaves_tracked_package_directory() {
    let lock = DependencyLock { dependencies: vec![record("foo")] };
    let untracked = untracked_dirs(&strings(&["other/file.txt", "README.md"]));
    assert!(cleanup_targets(&lock, &untracked).is_empty());
}

#[test]
fn cleanup_targets_follow_lock_order() {
    let lock = DependencyLock { dependencies: vec![record("a"), record("b"), record("c")] };
    assert_eq!(cleanup_targets(&lock, &strings(&["c", "a", "x"])), strings(&["a", "c"]));
}

#[test]
fn parent_dir_takes_text_before_last_slash() {
    assert_eq!(parent_dir("a/b/c.txt"), Some("a/b".to_string()));
    assert_eq!(parent_dir("/x"), Some("".to_string()));
    assert_eq!(parent_dir("plain"), None);
    assert_eq!(parent_dir(""), None);
}

#[test]
fn untracked_lines_are_trimmed_and_deduplicated() {
    let lines = strings(&["  foo/a.txt  ", "foo/b.txt", "bar/x/y.rs\r", "top.txt", ""]);
    assert_eq!(untracked_dirs(&lines), strings(&["foo", "bar/x"]));
    assert_eq!(dirs_of_paths(&strings(&["p/q", "p/r", "s/t"])), strings(&["p", "s"]));
}
