use lingo::flatten::ResolutionError;
use lingo::management::{cache_location_of, DependencyManager, FetchedPackage, LibraryConfig};
use lingo::tree::{GitLock, LibraryTargetProperties, PackageDetails, ProjectSource};
use lingo::version::{Comparator, Requirement, Version};

fn exact(text: &str) -> Requirement {
    Requirement::new(vec![Comparator::parse(&format!("={}", text)).unwrap()])
}

fn git_details(requirement: Requirement) -> PackageDetails {
    PackageDetails {
        version: requirement,
        mutual_exclusive: ProjectSource::Git("https://example.org/foo.git".to_string()),
        git_tag: Some(GitLock::Tag("v1.0".to_string())),
        git_rev: Some("abc123".to_string()),
    }
}

fn fetched(version: &str, library: bool, deps: Vec<(String, PackageDetails)>) -> FetchedPackage {
    FetchedPackage {
        hash: "deadbeef".to_string(),
        version: Version::parse(version).unwrap(),
        library: if library {
            Some(LibraryConfig {
                location: "src".to_string(),
                properties: LibraryTargetProperties { cmake_include: vec!["foo.cmake".to_string()] },
            })
        } else {
            None
        },
        dependencies: deps,
    }
}

#[test]
fn version_manifest_mismatch_fails_and_queues_nothing() {
    let mut m = DependencyManager::new();
    let deps = vec![("bar".to_string(), git_details(Requirement::any()))];
    let r = m.non_recursive_fetching("foo", git_details(exact("1.0.0")), fetched("1.1.0", true, deps), "cache");
    assert_eq!(
        r,
        Err(ResolutionError::VersionMismatch {
            name: "foo".to_string(),
            requested: exact("1.0.0"),
            found: Version::parse("1.1.0").unwrap(),
        })
    );
    assert!(m.pulling_queue.is_empty());
}

#[test]
fn missing_library_section_is_refused() {
    let mut m = DependencyManager::new();
    let r = m.non_recursive_fetching("foo", git_details(Requirement::any()), fetched("1.0.0", false, vec![]), "cache");
    assert_eq!(r, Err(ResolutionError::NotALibrary { name: "foo".to_string() }));
}

#[test]
fn accepted_fetch_builds_node_and_queues_dependencies() {
    let mut m = DependencyManager::new();
    let deps = vec![
        ("bar".to_string(), git_details(Requirement::any())),
        ("baz".to_string(), git_details(exact("2.0.0"))),
    ];
    let node = m
        .non_recursive_fetching("foo", git_details(exact("1.0.0")), fetched("1.0.0", true, deps), "/tmp/cache")
        .unwrap();
    assert_eq!(node.name, "foo");
    assert_eq!(node.location, "/tmp/cache/deadbeef");
    assert_eq!(node.hash, "deadbeef");
    assert_eq!(node.include_path, "src");
    assert_eq!(node.version.as_str(), "1.0.0");
    assert_eq!(node.properties.cmake_include, vec!["foo.cmake".to_string()]);
    assert_eq!(m.pulling_queue.len(), 2);
    // last in, first out
    let next = m.next_pending().unwrap();
    assert_eq!(next.0, "baz");
    assert_eq!(m.next_pending().unwrap().0, "bar");
    assert!(m.next_pending().is_none());
}

#[test]
fn same_hash_gives_same_cache_location() {
    assert_eq!(cache_location_of("root", "abc"), "root/abc");
    assert_eq!(cache_location_of("root", "abc"), cache_location_of("root", "abc"));
}

#[test]
fn pending_queue_is_lifo() {
    let mut m = DependencyManager::new();
    m.push_dependencies(vec![
        ("a".to_string(), git_details(Requirement::any())),
        ("b".to_string(), git_details(Requirement::any())),
    ]);
    m.push_dependencies(vec![("c".to_string(), git_details(Requirement::any()))]);
    assert_eq!(m.next_pending().unwrap().0, "c");
    assert_eq!(m.next_pending().unwrap().0, "b");
    assert_eq!(m.next_pending().unwrap().0, "a");
    assert_eq!(m.next_pending(), None);
}
