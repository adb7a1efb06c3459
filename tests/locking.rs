use lingo::lock::{
    intact_entries, DependencyLock, LockError, LockSourceError, PackageLock, PackageLockSource, PackageLockSourceType,
};
use lingo::management::DependencyManager;
use lingo::tree::{DependencyTreeNode, GitLock, LibraryTargetProperties, PackageDetails, ProjectSource};
use lingo::version::{Requirement, Version};

fn node(name: &str, hash: &str, source: ProjectSource, includes: &[&str]) -> DependencyTreeNode {
    DependencyTreeNode {
        name: name.to_string(),
        package: PackageDetails {
            version: Requirement::any(),
            mutual_exclusive: source,
            git_tag: None,
            git_rev: Some(format!("rev-{}", name)),
        },
        location: format!("cache/{}", hash),
        include_path: format!("{}/include", name),
        hash: hash.to_string(),
        version: Version::parse("1.2.3").unwrap(),
        properties: LibraryTargetProperties {
            cmake_include: includes.iter().map(|s| s.to_string()).collect(),
        },
    }
}

fn sample_nodes() -> Vec<DependencyTreeNode> {
    vec![
        node("foo", "h1", ProjectSource::Git("https://example.org/foo.git".to_string()), &["foo.cmake"]),
        node("bar", "h2", ProjectSource::Path("../bar".to_string()), &[]),
        node("baz", "h3", ProjectSource::TarBall("https://example.org/baz.tgz".to_string()), &["a.cmake", "b.cmake"]),
    ]
}

#[test]
fn lock_records_selected_nodes_in_order() {
    let nodes = sample_nodes();
    let lock = DependencyLock::create(&nodes, &vec![2, 0]);
    assert_eq!(lock.dependencies.len(), 2);
    let first: &PackageLock = &lock.dependencies[0];
    assert_eq!(first.name, "baz");
    assert_eq!(first.checksum, "h3");
    assert_eq!(first.source.source_type, PackageLockSourceType::TARBALL);
    assert_eq!(first.source.uri, "https://example.org/baz.tgz");
    assert_eq!(first.source.rev, Some("rev-baz".to_string()));
    assert_eq!(lock.dependencies[1].source.source_type, PackageLockSourceType::GIT);
}

#[test]
fn resolve_records_lock_and_aggregates_properties() {
    let nodes = sample_nodes();
    let mut m = DependencyManager::new();
    assert_eq!(m.resolve(&nodes), Ok(vec![0, 1, 2]));
    assert_eq!(
        m.get_target_properties().cmake_include,
        vec!["foo.cmake".to_string(), "a.cmake".to_string(), "b.cmake".to_string()]
    );
}

#[test]
fn intact_lock_is_reused_without_fetching() {
    let nodes = sample_nodes();
    let lock = DependencyLock::create(&nodes, &vec![0, 1, 2]);
    let layout_before = lock.library_layout();
    let present = vec!["h3".to_string(), "h1".to_string(), "h2".to_string(), "other".to_string()];
    let m = DependencyManager::from_lock(lock.clone(), &present).unwrap();
    assert!(m.pulling_queue.is_empty());
    assert_eq!(m.lock, lock);
    let layout_after = m.lock.library_layout();
    assert_eq!(layout_before, layout_after);
    assert_eq!(layout_after[1].name, "bar");
    assert_eq!(layout_after[1].checksum, "h2");
    assert_eq!(layout_after[1].include_path, "bar/include");
}

#[test]
fn stale_lock_is_refused() {
    let nodes = sample_nodes();
    let lock = DependencyLock::create(&nodes, &vec![0, 1, 2]);
    let present = vec!["h1".to_string(), "h3".to_string()];
    assert_eq!(lock.validate(&present), Err(LockError::LockValidationFailed { name: "bar".to_string() }));
    assert!(DependencyManager::from_lock(lock, &present).is_err());
}

#[test]
fn empty_lock_is_always_intact() {
    let lock = DependencyLock { dependencies: vec![] };
    assert_eq!(lock.validate(&vec![]), Ok(()));
}

#[test]
fn lock_source_to_details() {
    let git = PackageLockSource {
        source_type: PackageLockSourceType::GIT,
        uri: "HTTPS://Example.org/foo.git".to_string(),
        rev: Some("abc".to_string()),
    };
    let d = PackageDetails::try_from(&git).unwrap();
    assert_eq!(d.mutual_exclusive, ProjectSource::Git("https://example.org/foo.git".to_string()));
    assert_eq!(d.git_tag, Some(GitLock::Rev("abc".to_string())));
    assert_eq!(d.git_rev, Some("abc".to_string()));
    assert!(d.version.clauses.is_empty());

    let path = PackageLockSource {
        source_type: PackageLockSourceType::PATH,
        uri: "../local".to_string(),
        rev: None,
    };
    let d = PackageDetails::try_from(&path).unwrap();
    assert_eq!(d.mutual_exclusive, ProjectSource::Path("../local".to_string()));
    assert_eq!(d.git_tag, None);
}

#[test]
fn lock_source_errors() {
    let bad = PackageLockSource {
        source_type: PackageLockSourceType::TARBALL,
        uri: "not a url".to_string(),
        rev: None,
    };
    assert_eq!(
        PackageDetails::try_from(&bad),
        Err(LockSourceError::InvalidUrl(url::ParseError::RelativeUrlWithoutBase))
    );
    let registry = PackageLockSource {
        source_type: PackageLockSourceType::REGISTRY,
        uri: "foo".to_string(),
        rev: None,
    };
    assert_eq!(PackageDetails::try_from(&registry), Err(LockSourceError::RegistryUnsupported));
}

#[test]
fn only_directories_matching_their_hash_are_intact() {
    let listing = vec![
        ("h1".to_string(), "h1".to_string()),
        ("h2".to_string(), "changed".to_string()),
        ("h3".to_string(), "h3".to_string()),
    ];
    assert_eq!(intact_entries(&listing), vec!["h1".to_string(), "h3".to_string()]);
    assert!(intact_entries(&vec![]).is_empty());
}
