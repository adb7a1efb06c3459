//! Package references and the nodes that fetching them produces.
use vstd::prelude::*;

use crate::version::{Requirement, Version};

verus! {

/// Where a package's sources come from.
#[derive(Clone, Debug, PartialEq, Eq)]
pub enum ProjectSource {
    /// A directory on the local file system.
    Path(String),
    /// A git repository, by its normalised URL.
    Git(String),
    /// A tarball, by its normalised URL.
    TarBall(String),
    /// A package registry.
    Registry,
}

/// The git reference to check out.
#[derive(Clone, Debug, PartialEq, Eq)]
pub enum GitLock {
    Tag(String),
    Branch(String),
    Rev(String),
}

/// A requested dependency: its version requirement, its origin, and the
/// revision that fetching it resolved, once it has been fetched.
#[derive(Clone, Debug, PartialEq, Eq)]
pub struct PackageDetails {
    pub version: Requirement,
    pub mutual_exclusive: ProjectSource,
    pub git_tag: Option<GitLock>,
    pub git_rev: Option<String>,
}

/// Build-relevant metadata that a library declares: the CMake files that a
/// consumer includes.
#[derive(Clone, Debug, PartialEq, Eq)]
pub struct LibraryTargetProperties {
    pub cmake_include: Vec<String>,
}

/// The outcome of fetching one package reference.
#[derive(Clone, Debug, PartialEq, Eq)]
pub struct DependencyTreeNode {
    pub name: String,
    pub package: PackageDetails,
    /// Content-addressed location: the cache root joined with `hash`.
    pub location: String,
    /// Where the library's public sources live, relative to its root.
    pub include_path: String,
    pub hash: String,
    /// The version that the fetched manifest declares.
    pub version: Version,
    pub properties: LibraryTargetProperties,
}

impl ProjectSource {
    pub fn duplicate(&self) -> (r: ProjectSource)
        ensures
            r == *self,
    {
        match self {
            ProjectSource::Path(p) => ProjectSource::Path(p.clone()),
            ProjectSource::Git(u) => ProjectSource::Git(u.clone()),
            ProjectSource::TarBall(u) => ProjectSource::TarBall(u.clone()),
            ProjectSource::Registry => ProjectSource::Registry,
        }
    }
}

impl GitLock {
    pub fn duplicate(&self) -> (r: GitLock)
        ensures
            r == *self,
    {
        match self {
            GitLock::Tag(s) => GitLock::Tag(s.clone()),
            GitLock::Branch(s) => GitLock::Branch(s.clone()),
            GitLock::Rev(s) => GitLock::Rev(s.clone()),
        }
    }
}

pub fn duplicate_text(s: &Option<String>) -> (r: Option<String>)
    ensures
        r == *s,
{
    match s {
        Some(t) => Some(t.clone()),
        None => None,
    }
}

impl LibraryTargetProperties {
    pub fn new() -> (r: LibraryTargetProperties)
        ensures
            r.cmake_include@.len() == 0,
    {
        LibraryTargetProperties { cmake_include: Vec::new() }
    }

    pub fn duplicate(&self) -> (r: LibraryTargetProperties)
        ensures
            r.cmake_include@ == self.cmake_include@,
    {
        let mut out: Vec<String> = Vec::new();
        let mut i: usize = 0;
        while i < self.cmake_include.len()
            invariant
                0 <= i <= self.cmake_include@.len(),
                out@ == self.cmake_include@.subrange(0, i as int),
            decreases self.cmake_include.len() - i,
        {
            out.push(self.cmake_include[i].clone());
            i = i + 1;
        }
        assert(out@ == self.cmake_include@.subrange(0, self.cmake_include@.len() as int));
        LibraryTargetProperties { cmake_include: out }
    }
}

impl PackageDetails {
    pub open spec fn same_as(self, other: PackageDetails) -> bool {
        &&& self.version.same_as(other.version)
        &&& self.mutual_exclusive == other.mutual_exclusive
        &&& self.git_tag == other.git_tag
        &&& self.git_rev == other.git_rev
    }

    pub fn duplicate(&self) -> (r: PackageDetails)
        ensures
            r.same_as(*self),
    {
        PackageDetails {
            version: self.version.duplicate(),
            mutual_exclusive: self.mutual_exclusive.duplicate(),
            git_tag: match &self.git_tag {
                Some(g) => Some(g.duplicate()),
                None => None,
            },
            git_rev: duplicate_text(&self.git_rev),
        }
    }
}

} // verus!
