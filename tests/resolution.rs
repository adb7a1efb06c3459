use lingo::flatten::{flatten, ResolutionError};
use lingo::tree::{DependencyTreeNode, LibraryTargetProperties, PackageDetails, ProjectSource};
use lingo::version::{Comparator, Requirement, Version};

fn v(text: &str) -> Version {
    Version::parse(text).unwrap()
}

fn c(text: &str) -> Comparator {
    Comparator::parse(text).unwrap()
}

fn req(clauses: &[&str]) -> Requirement {
    Requirement::new(clauses.iter().map(|t| c(t)).collect())
}

fn node(name: &str, version: &str, requirement: Requirement) -> DependencyTreeNode {
    DependencyTreeNode {
        name: name.to_string(),
        package: PackageDetails {
            version: requirement,
            mutual_exclusive: ProjectSource::Path(format!("../{}", name)),
            git_tag: None,
            git_rev: None,
        },
        location: format!("cache/{}-{}", name, version),
        include_path: "src".to_string(),
        hash: format!("{}{}", name, version),
        version: v(version),
        properties: LibraryTargetProperties::new(),
    }
}

#[test]
fn constraint_conjunction_picks_only_viable_candidate() {
    let nodes = vec![
        node("foo", "1.2", req(&[">=1.0", "<2.0"])),
        node("foo", "1.6", req(&[">=1.5"])),
        node("foo", "2.0", req(&[">=1.5"])),
    ];
    let sel = flatten(&nodes).unwrap();
    assert_eq!(sel, vec![1]);
    assert_eq!(nodes[sel[0]].version, v("1.6"));
}

#[test]
fn unsatisfiable_conjunction_fails() {
    let nodes = vec![
        node("foo", "2.0", req(&[">=2.0"])),
        node("foo", "1.9", req(&["<2.0"])),
    ];
    assert_eq!(
        flatten(&nodes),
        Err(ResolutionError::NoViableVersion {
            name: "foo".to_string(),
            requirements: vec![req(&[">=2.0"]), req(&["<2.0"])],
        })
    );
}

#[test]
fn highest_viable_version_wins_and_ties_keep_first() {
    let nodes = vec![
        node("a", "1.0.0", Requirement::any()),
        node("a", "1.3.0", Requirement::any()),
        node("a", "1.3.0", Requirement::any()),
        node("a", "1.1.0", Requirement::any()),
    ];
    assert_eq!(flatten(&nodes), Ok(vec![1]));
}

#[test]
fn selection_follows_first_discovery_order() {
    let nodes = vec![
        node("b", "1", Requirement::any()),
        node("a", "1", Requirement::any()),
        node("c", "3", Requirement::any()),
        node("a", "2", Requirement::any()),
        node("b", "0.5", Requirement::any()),
    ];
    assert_eq!(flatten(&nodes), Ok(vec![0, 3, 2]));
}

#[test]
fn error_names_first_discovered_failing_package() {
    let nodes = vec![
        node("ok", "1", Requirement::any()),
        node("x", "1", req(&["=2"])),
        node("y", "1", req(&[">1"])),
    ];
    assert_eq!(
        flatten(&nodes),
        Err(ResolutionError::NoViableVersion {
            name: "x".to_string(),
            requirements: vec![req(&["=2"])],
        })
    );
}

#[test]
fn empty_node_set_selects_nothing() {
    assert_eq!(flatten(&Vec::new()), Ok(vec![]));
}

#[test]
fn repeated_resolution_is_identical() {
    let make = || {
        vec![
            node("x", "1.0", req(&[">=1"])),
            node("y", "0.3", Requirement::any()),
            node("x", "1.4", req(&["<=1.4"])),
        ]
    };
    let a = make();
    let b = make();
    assert_eq!(flatten(&a), flatten(&b));
    assert_eq!(flatten(&a), Ok(vec![2, 1]));
}

#[test]
fn version_order_follows_versions_crate() {
    assert_eq!(v("1.2.0").compare(&v("1.10.0")), -1);
    assert_eq!(v("2.0.0").compare(&v("1.99.99")), 1);
    assert_eq!(v("1.4.2").compare(&v("1.4.2")), 0);
    assert_eq!(v("1.0.0-alpha").compare(&v("1.0.0")), -1);
}

#[test]
fn unparsable_texts_are_refused() {
    assert!(Version::parse("").is_none());
    assert!(Comparator::parse(">>1").is_none());
    assert_eq!(v("1.2.3").as_str(), "1.2.3");
    assert_eq!(c(">=1.0").as_str(), ">=1.0");
}

#[test]
fn requirement_clauses_follow_versions_crate() {
    let x = v("1.5.0");
    assert!(c("=1.5.0").matches(&x));
    assert!(!c(">1.5.0").matches(&x));
    assert!(c(">=1.5.0").matches(&x));
    assert!(c("<2.0.0").matches(&x));
    assert!(!c("<=1.4.9").matches(&x));
    assert!(c("*").matches(&x));
    assert!(Requirement::any().matches(&x));
    assert!(!req(&[">=1.0.0", "<1.5.0"]).matches(&x));
    assert!(req(&[">=1.0.0", "<2.0.0"]).matches(&x));
}

#[test]
fn caret_and_tilde_requirements() {
    assert!(c("^1.2.0").matches(&v("1.9.0")));
    assert!(!c("^1.2.0").matches(&v("2.0.0")));
    assert!(c("~1.2.0").matches(&v("1.2.5")));
    assert!(!c("~1.2.0").matches(&v("1.3.0")));
}

#[test]
fn pre_release_does_not_meet_exact_release() {
    assert!(!c("=1.0.0").matches(&v("1.0.0-alpha")));
    assert!(c("<1.0.0").matches(&v("1.0.0-alpha")));
}
