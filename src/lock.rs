//! The lock: the persisted record of a selection, and its validation.
use vstd::prelude::*;

use crate::tree::{
    duplicate_text, DependencyTreeNode, GitLock, LibraryTargetProperties, PackageDetails,
    ProjectSource,
};
use crate::version::{Requirement, Version};

verus! {

/// The kind of origin that a lock record names.
#[allow(non_camel_case_types)]
#[derive(Clone, Copy, Debug, PartialEq, Eq)]
pub enum PackageLockSourceType {
    REGISTRY,
    GIT,
    TARBALL,
    PATH,
}

/// Origin descriptor of a lock record: its kind, its URI or path, and the
/// revision that fetching resolved.
#[derive(Clone, Debug, PartialEq, Eq)]
pub struct PackageLockSource {
    pub source_type: PackageLockSourceType,
    pub uri: String,
    pub rev: Option<String>,
}

/// One entry of the lock.
#[derive(Clone, Debug, PartialEq, Eq)]
pub struct PackageLock {
    pub name: String,
    pub version: Version,
    pub source: PackageLockSource,
    /// Content hash: the name of the package's directory in the cache.
    pub checksum: String,
    pub include_path: String,
    pub properties: LibraryTargetProperties,
}

/// The lock: one record per selected package, in selection order.
#[derive(Clone, Debug, PartialEq, Eq)]
pub struct DependencyLock {
    pub dependencies: Vec<PackageLock>,
}

/// Why a lock cannot be trusted.
#[derive(Clone, Debug, PartialEq, Eq)]
pub enum LockError {
    /// The cache holds no intact directory for this package's content hash.
    LockValidationFailed { name: String },
}

/// Why a lock record cannot be turned back into a package reference.
#[derive(Debug, PartialEq, Eq)]
pub enum LockSourceError {
    /// Registry origins are not supported.
    RegistryUnsupported,
    /// The recorded URI is not an absolute URL, for this reason.
    InvalidUrl(url::ParseError),
}

/// One directory of the materialised library folder: the package `name`,
/// filled from the cache directory `checksum`, whose public sources lie
/// under `include_path`.
#[derive(Clone, Debug, PartialEq, Eq)]
pub struct LibraryEntry {
    pub name: String,
    pub checksum: String,
    pub include_path: String,
}

pub open spec fn source_type_of(s: ProjectSource) -> PackageLockSourceType {
    match s {
        ProjectSource::Path(_) => PackageLockSourceType::PATH,
        ProjectSource::Git(_) => PackageLockSourceType::GIT,
        ProjectSource::TarBall(_) => PackageLockSourceType::TARBALL,
        ProjectSource::Registry => PackageLockSourceType::REGISTRY,
    }
}

pub open spec fn uri_of(s: ProjectSource) -> Seq<char> {
    match s {
        ProjectSource::Path(p) => p@,
        ProjectSource::Git(u) => u@,
        ProjectSource::TarBall(u) => u@,
        ProjectSource::Registry => Seq::empty(),
    }
}

/// Lock record `rec` records the fetched node `node`.
pub open spec fn records_node(rec: PackageLock, node: DependencyTreeNode) -> bool {
    &&& rec.name@ == node.name@
    &&& rec.version@ == node.version@
    &&& rec.source.source_type == source_type_of(node.package.mutual_exclusive)
    &&& rec.source.uri@ == uri_of(node.package.mutual_exclusive)
    &&& rec.source.rev == node.package.git_rev
    &&& rec.checksum@ == node.hash@
    &&& rec.include_path@ == node.include_path@
    &&& rec.properties.cmake_include@ == node.properties.cmake_include@
}

/// The lock records, entry for entry, the nodes that `sel` selects.
pub open spec fn records_selection(
    lock: Seq<PackageLock>,
    nodes: Seq<DependencyTreeNode>,
    sel: Seq<usize>,
) -> bool {
    &&& lock.len() == sel.len()
    &&& forall|k: int| 0 <= k < sel.len() ==> records_node(#[trigger] lock[k], nodes[sel[k] as int])
}

/// Every record's content hash names an intact directory of the cache.
pub open spec fn lock_intact(lock: Seq<PackageLock>, present: Seq<String>) -> bool {
    forall|k: int| 0 <= k < lock.len() ==> #[trigger] in_cache(lock[k].checksum@, present)
}

pub open spec fn in_cache(checksum: Seq<char>, present: Seq<String>) -> bool {
    exists|p: int| 0 <= p < present.len() && #[trigger] present[p]@ == checksum
}

/// `e` names the first record whose directory is not intact in the cache.
pub open spec fn reports_stale(lock: Seq<PackageLock>, present: Seq<String>, e: LockError) -> bool {
    exists|k: int|
        0 <= k < lock.len() && (e matches LockError::LockValidationFailed { name } && name
            == lock[k].name) && !in_cache(lock[k].checksum@, present) && forall|j: int|
            0 <= j < k ==> #[trigger] in_cache(lock[j].checksum@, present)
}

/// The CMake includes of the first `n` records, in record order.
pub open spec fn aggregate_includes(lock: Seq<PackageLock>, n: int) -> Seq<String>
    decreases n,
{
    if n <= 0 {
        Seq::empty()
    } else {
        aggregate_includes(lock, n - 1) + lock[n - 1].properties.cmake_include@
    }
}

/// The library folder that materialising the lock produces.
pub open spec fn layout_of(lock: Seq<PackageLock>, entries: Seq<LibraryEntry>) -> bool {
    &&& entries.len() == lock.len()
    &&& forall|k: int|
        0 <= k < lock.len() ==> (#[trigger] entries[k]).name@ == lock[k].name@
            && entries[k].checksum@ == lock[k].checksum@ && entries[k].include_path@
            == lock[k].include_path@
}

/// What parsing a text as an absolute URL gives: its serialisation, or
/// nothing where the text is not one.
pub uninterp spec fn url_serialization(s: Seq<char>) -> Option<Seq<char>>;

/// Relies on url::Url::parse, which parses an absolute URL or fails with
/// its ParseError, and on Url::as_str, its serialisation; whether it
/// succeeds, and the serialisation, depend on the text alone.
#[verifier::external_body]
fn parse_url(s: &str) -> (r: Result<String, url::ParseError>)
    ensures
        r is Ok <==> url_serialization(s@) is Some,
        r matches Ok(t) ==> t@ == url_serialization(s@)->0,
{
    match url::Url::parse(s) {
        Ok(u) => Ok(u.as_str().to_string()),
        Err(e) => Err(e),
    }
}

/// The error that url::Url::parse reports.
#[verifier::external_type_specification]
#[verifier::external_body]
pub struct ExParseError(url::ParseError);

impl PackageLock {
    /// The lock record of a fetched node.
    pub fn from_node(node: &DependencyTreeNode) -> (r: PackageLock)
        ensures
            records_node(r, *node),
    {
        let (source_type, uri) = match &node.package.mutual_exclusive {
            ProjectSource::Path(p) => (PackageLockSourceType::PATH, p.clone()),
            ProjectSource::Git(u) => (PackageLockSourceType::GIT, u.clone()),
            ProjectSource::TarBall(u) => (PackageLockSourceType::TARBALL, u.clone()),
            ProjectSource::Registry => (PackageLockSourceType::REGISTRY, String::new()),
        };
        PackageLock {
            name: node.name.clone(),
            version: node.version.duplicate(),
            source: PackageLockSource { source_type, uri, rev: duplicate_text(&node.package.git_rev) },
            checksum: node.hash.clone(),
            include_path: node.include_path.clone(),
            properties: node.properties.duplicate(),
        }
    }
}

impl DependencyLock {
    /// The lock that records the selected nodes, in selection order.
    pub fn create(nodes: &Vec<DependencyTreeNode>, selection: &Vec<usize>) -> (r: DependencyLock)
        requires
            forall|k: int| 0 <= k < selection@.len() ==> #[trigger] selection@[k] < nodes@.len(),
        ensures
            records_selection(r.dependencies@, nodes@, selection@),
    {
        let mut dependencies: Vec<PackageLock> = Vec::new();
        let mut k: usize = 0;
        while k < selection.len()
            invariant
                0 <= k <= selection@.len(),
                forall|j: int| 0 <= j < selection@.len() ==> #[trigger] selection@[j] < nodes@.len(),
                dependencies@.len() == k,
                forall|j: int|
                    0 <= j < k ==> records_node(#[trigger] dependencies@[j], nodes@[selection@[j] as int]),
            decreases selection.len() - k,
        {
            let i = selection[k];
            dependencies.push(PackageLock::from_node(&nodes[i]));
            k = k + 1;
        }
        DependencyLock { dependencies }
    }

    /// Checks every record against the cache. `present` lists the names of
    /// the cache directories whose content still hashes to their name. Fails
    /// on the first record whose directory is not among them.
    pub fn validate(&self, present: &Vec<String>) -> (r: Result<(), LockError>)
        ensures
            r is Ok <==> lock_intact(self.dependencies@, present@),
            r matches Err(e) ==> reports_stale(self.dependencies@, present@, e),
    {
        let mut k: usize = 0;
        while k < self.dependencies.len()
            invariant
                0 <= k <= self.dependencies@.len(),
                forall|j: int| 0 <= j < k ==> #[trigger] in_cache(self.dependencies@[j].checksum@, present@),
            decreases self.dependencies.len() - k,
        {
            let mut found = false;
            let mut p: usize = 0;
            while p < present.len()
                invariant
                    0 <= p <= present@.len(),
                    k < self.dependencies@.len(),
                    found ==> in_cache(self.dependencies@[k as int].checksum@, present@),
                    !found ==> forall|q: int| 0 <= q < p ==> present@[q]@ != self.dependencies@[k as int].checksum@,
                decreases present.len() - p,
            {
                if present[p] == self.dependencies[k].checksum {
                    found = true;
                }
                p = p + 1;
            }
            if !found {
                assert(!in_cache(self.dependencies@[k as int].checksum@, present@));
                return Err(LockError::LockValidationFailed { name: self.dependencies[k].name.clone() });
            }
            k = k + 1;
        }
        Ok(())
    }

    /// The CMake includes of all records, in record order.
    pub fn aggregate_target_properties(&self) -> (r: LibraryTargetProperties)
        ensures
            r.cmake_include@ == aggregate_includes(self.dependencies@, self.dependencies@.len() as int),
    {
        let mut out: Vec<String> = Vec::new();
        let mut k: usize = 0;
        while k < self.dependencies.len()
            invariant
                0 <= k <= self.dependencies@.len(),
                out@ == aggregate_includes(self.dependencies@, k as int),
            decreases self.dependencies.len() - k,
        {
            let inc = &self.dependencies[k].properties.cmake_include;
            let ghost before = out@;
            let mut j: usize = 0;
            while j < inc.len()
                invariant
                    0 <= j <= inc@.len(),
                    out@ == before + inc@.subrange(0, j as int),
                decreases inc.len() - j,
            {
                out.push(inc[j].clone());
                proof {
                    assert(inc@.subrange(0, j + 1) == inc@.subrange(0, j as int).push(inc@[j as int]));
                }
                j = j + 1;
            }
            assert(inc@.subrange(0, inc@.len() as int) == inc@);
            k = k + 1;
        }
        LibraryTargetProperties { cmake_include: out }
    }

    /// The directories of the library folder, one per record, in record order.
    pub fn library_layout(&self) -> (r: Vec<LibraryEntry>)
        ensures
            layout_of(self.dependencies@, r@),
    {
        let mut out: Vec<LibraryEntry> = Vec::new();
        let mut k: usize = 0;
        while k < self.dependencies.len()
            invariant
                0 <= k <= self.dependencies@.len(),
                out@.len() == k,
                forall|j: int|
                    0 <= j < k ==> (#[trigger] out@[j]).name@ == self.dependencies@[j].name@
                        && out@[j].checksum@ == self.dependencies@[j].checksum@ && out@[j].include_path@
                        == self.dependencies@[j].include_path@,
            decreases self.dependencies.len() - k,
        {
            let rec = &self.dependencies[k];
            out.push(
                LibraryEntry {
                    name: rec.name.clone(),
                    checksum: rec.checksum.clone(),
                    include_path: rec.include_path.clone(),
                },
            );
            k = k + 1;
        }
        out
    }
}

/// `r` is what a lock record `value` describes, given what parsing its URI
/// as a URL gave (`url`): registry origins are refused, git and tarball
/// origins need a URL and take its normalised form, path origins keep the
/// path as written, and a recorded revision is checked out again.
pub open spec fn describes_lock_source(
    value: PackageLockSource,
    url: Option<Seq<char>>,
    r: Result<PackageDetails, LockSourceError>,
) -> bool {
    let remote = value.source_type == PackageLockSourceType::GIT || value.source_type
        == PackageLockSourceType::TARBALL;
    &&& value.source_type == PackageLockSourceType::REGISTRY ==> r == Err::<PackageDetails, _>(
        LockSourceError::RegistryUnsupported,
    )
    &&& remote && url is None ==> (r matches Err(LockSourceError::InvalidUrl(_)))
    &&& r is Ok <==> (value.source_type == PackageLockSourceType::PATH || (remote && url is Some))
    &&& r matches Ok(d) ==> {
        &&& d.version.clauses@.len() == 0
        &&& d.git_rev == value.rev
        &&& d.git_tag == (match value.rev {
            Some(v) => Some(GitLock::Rev(v)),
            None => None,
        })
        &&& source_type_of(d.mutual_exclusive) == value.source_type
        &&& uri_of(d.mutual_exclusive) == (if remote {
            url->0
        } else {
            value.uri@
        })
    }
}

/// The package reference that a lock record describes, given what parsing
/// its URI as a URL gave; a parse error is passed on.
pub fn details_from_lock_source(
    value: &PackageLockSource,
    url: Result<String, url::ParseError>,
) -> (r: Result<PackageDetails, LockSourceError>)
    ensures
        describes_lock_source(
            *value,
            match url {
                Ok(u) => Some(u@),
                Err(_) => None,
            },
            r,
        ),
        (value.source_type == PackageLockSourceType::GIT || value.source_type
            == PackageLockSourceType::TARBALL) ==> (url matches Err(e) ==> r == Err::<
            PackageDetails,
            _,
        >(LockSourceError::InvalidUrl(e))),
{
    let source = match value.source_type {
        PackageLockSourceType::REGISTRY => {
            return Err(LockSourceError::RegistryUnsupported);
        },
        PackageLockSourceType::GIT => match url {
            Ok(u) => ProjectSource::Git(u),
            Err(e) => {
                return Err(LockSourceError::InvalidUrl(e));
            },
        },
        PackageLockSourceType::TARBALL => match url {
            Ok(u) => ProjectSource::TarBall(u),
            Err(e) => {
                return Err(LockSourceError::InvalidUrl(e));
            },
        },
        PackageLockSourceType::PATH => ProjectSource::Path(value.uri.clone()),
    };
    let git_tag = match &value.rev {
        Some(v) => Some(GitLock::Rev(v.clone())),
        None => None,
    };
    Ok(
        PackageDetails {
            version: Requirement::any(),
            mutual_exclusive: source,
            git_tag,
            git_rev: duplicate_text(&value.rev),
        },
    )
}

/// Some directory of the listing is named `name` and its content hashes to
/// that name.
pub open spec fn listed_intact(listing: Seq<(String, String)>, name: Seq<char>) -> bool {
    exists|p: int| 0 <= p < listing.len() && (#[trigger] listing[p]).0@ == name && listing[p].1@ == name
}

/// Of the cache's directories, given as pairs of a directory's name and the
/// hash that its content has now, the names of those still intact: whose
/// content hashes to their name.
pub fn intact_entries(listing: &Vec<(String, String)>) -> (r: Vec<String>)
    ensures
        forall|q: int| 0 <= q < r@.len() ==> listed_intact(listing@, (#[trigger] r@[q])@),
        forall|p: int|
            0 <= p < listing@.len() && (#[trigger] listing@[p]).0@ == listing@[p].1@ ==> in_cache(
                listing@[p].0@,
                r@,
            ),
{
    let mut out: Vec<String> = Vec::new();
    let mut i: usize = 0;
    while i < listing.len()
        invariant
            0 <= i <= listing@.len(),
            forall|q: int| 0 <= q < out@.len() ==> listed_intact(listing@, (#[trigger] out@[q])@),
            forall|p: int|
                0 <= p < i && (#[trigger] listing@[p]).0@ == listing@[p].1@ ==> in_cache(
                    listing@[p].0@,
                    out@,
                ),
        decreases listing.len() - i,
    {
        if listing[i].0 == listing[i].1 {
            let ghost before = out@;
            out.push(listing[i].0.clone());
            proof {
                assert(out@[before.len() as int] == listing@[i as int].0);
                assert(listed_intact(listing@, listing@[i as int].0@));
                assert forall|p: int|
                    0 <= p <= i && (#[trigger] listing@[p]).0@ == listing@[p].1@ implies in_cache(
                    listing@[p].0@,
                    out@,
                ) by {
                    if p < i {
                        let w = choose|w: int| 0 <= w < before.len() && #[trigger] before[w]@ == listing@[p].0@;
                        assert(out@[w] == before[w]);
                    } else {
                        assert(out@[before.len() as int]@ == listing@[p].0@);
                    }
                }
                assert forall|q: int| 0 <= q < out@.len() implies listed_intact(listing@, (#[trigger] out@[q])@) by {
                    if q < before.len() {
                        assert(out@[q] == before[q]);
                    }
                }
            }
        }
        i = i + 1;
    }
    out
}

impl PackageDetails {
    /// The package reference that a lock record describes; a git or tarball
    /// URI is parsed and normalised as a URL.
    pub fn try_from(value: &PackageLockSource) -> (r: Result<PackageDetails, LockSourceError>)
        ensures
            describes_lock_source(*value, url_serialization(value.uri@), r),
    {
        let url = match value.source_type {
            PackageLockSourceType::GIT | PackageLockSourceType::TARBALL => parse_url(value.uri.as_str()),
            _ => Ok(value.uri.clone()),
        };
        details_from_lock_source(value, url)
    }
}

} // verus!
