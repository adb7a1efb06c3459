//! The resolution driver: the work-list of pending package references, the
//! checks on each fetched package, and the decisions around the lock.
use vstd::prelude::*;

use crate::flatten::{all_viable, flatten, is_selection, reports_no_viable, ResolutionError};
use crate::lock::{lock_intact, records_selection, reports_stale, DependencyLock, LockError};
use crate::tree::{DependencyTreeNode, LibraryTargetProperties, PackageDetails};
use crate::version::Version;

verus! {

/// The library section of a fetched manifest.
#[derive(Clone, Debug, PartialEq, Eq)]
pub struct LibraryConfig {
    /// Where the library's public sources live, relative to its root.
    pub location: String,
    pub properties: LibraryTargetProperties,
}

/// What fetching a package produced: the content hash of the fetched tree,
/// and what its manifest declares.
#[derive(Clone, Debug, PartialEq, Eq)]
pub struct FetchedPackage {
    pub hash: String,
    pub version: Version,
    pub library: Option<LibraryConfig>,
    pub dependencies: Vec<(String, PackageDetails)>,
}

/// Resolution state: the packages still to fetch, and the lock of the
/// current selection.
pub struct DependencyManager {
    /// Pending package references; the last one is fetched next.
    pub pulling_queue: Vec<(String, PackageDetails)>,
    pub lock: DependencyLock,
}

/// The content-addressed location of a tree whose hash is `hash`.
pub open spec fn cache_location(root: Seq<char>, hash: Seq<char>) -> Seq<char> {
    root + seq!['/'] + hash
}

/// `node` is the node built from the fetch of `name` with reference
/// `package` into the cache at `root`.
pub open spec fn builds_node(
    node: DependencyTreeNode,
    name: Seq<char>,
    package: PackageDetails,
    fetched: FetchedPackage,
    root: Seq<char>,
) -> bool {
    &&& node.name@ == name
    &&& node.package == package
    &&& node.location@ == cache_location(root, fetched.hash@)
    &&& node.include_path@ == fetched.library->0.location@
    &&& node.hash@ == fetched.hash@
    &&& node.version@ == fetched.version@
    &&& node.properties.cmake_include@ == fetched.library->0.properties.cmake_include@
}

pub fn cache_location_of(root: &str, hash: &str) -> (r: String)
    ensures
        r@ == cache_location(root@, hash@),
{
    proof {
        reveal_strlit("/");
    }
    let r = String::from_str(root).concat("/");
    r.concat(hash)
}

impl DependencyManager {
    /// A manager with nothing pending and an empty lock.
    pub fn new() -> (r: DependencyManager)
        ensures
            r.pulling_queue@.len() == 0,
            r.lock.dependencies@.len() == 0,
    {
        DependencyManager { pulling_queue: Vec::new(), lock: DependencyLock { dependencies: Vec::new() } }
    }

    /// Adds references to the work-list; the last of them is fetched first.
    pub fn push_dependencies(&mut self, dependencies: Vec<(String, PackageDetails)>)
        ensures
            final(self).pulling_queue@ == old(self).pulling_queue@ + dependencies@,
            final(self).lock == old(self).lock,
    {
        let mut dependencies = dependencies;
        self.pulling_queue.append(&mut dependencies);
    }

    /// Takes the most recently added pending reference.
    pub fn next_pending(&mut self) -> (r: Option<(String, PackageDetails)>)
        ensures
            old(self).pulling_queue@.len() == 0 ==> r is None && final(self).pulling_queue@
                == old(self).pulling_queue@,
            old(self).pulling_queue@.len() > 0 ==> r == Some(old(self).pulling_queue@.last())
                && final(self).pulling_queue@ == old(self).pulling_queue@.drop_last(),
            final(self).lock == old(self).lock,
    {
        self.pulling_queue.pop()
    }

    /// Checks one fetched package and builds its node.
    ///
    /// Fails with `NotALibrary` where the manifest has no library section,
    /// and with `VersionMismatch` where the declared version does not meet
    /// the request; the work-list is then left as it was, and nothing is to
    /// be written into the cache. Otherwise the manifest's own dependencies
    /// join the work-list and the node is placed at its content-addressed
    /// location under `cache_root`.
    pub fn non_recursive_fetching(
        &mut self,
        name: &str,
        package: PackageDetails,
        fetched: FetchedPackage,
        cache_root: &str,
    ) -> (r: Result<DependencyTreeNode, ResolutionError>)
        ensures
            fetched.library is None ==> (r matches Err(ResolutionError::NotALibrary { name: n })
                && n@ == name@),
            fetched.library is Some && !package.version.admits(fetched.version@) ==> (r matches Err(
                ResolutionError::VersionMismatch { name: n, requested, found },
            ) && n@ == name@ && requested.same_as(package.version) && found@ == fetched.version@),
            r is Ok <==> fetched.library is Some && package.version.admits(fetched.version@),
            r is Ok ==> final(self).pulling_queue@ == old(self).pulling_queue@ + fetched.dependencies@,
            r is Err ==> final(self).pulling_queue@ == old(self).pulling_queue@,
            r matches Ok(node) ==> builds_node(node, name@, package, fetched, cache_root@),
            final(self).lock == old(self).lock,
    {
        let FetchedPackage { hash, version, library, dependencies } = fetched;
        let config = match library {
            Some(c) => c,
            None => {
                return Err(ResolutionError::NotALibrary { name: String::from_str(name) });
            },
        };
        if !package.version.matches(&version) {
            return Err(
                ResolutionError::VersionMismatch {
                    name: String::from_str(name),
                    requested: package.version.duplicate(),
                    found: version,
                },
            );
        }
        self.push_dependencies(dependencies);
        let location = cache_location_of(cache_root, hash.as_str());
        Ok(
            DependencyTreeNode {
                name: String::from_str(name),
                package,
                location,
                include_path: config.location,
                hash,
                version,
                properties: config.properties,
            },
        )
    }

    /// Reuses a lock whose every record is intact in the cache: nothing is
    /// then left to fetch. Fails where any record is not intact, and the
    /// caller then resolves afresh.
    pub fn from_lock(lock: DependencyLock, present: &Vec<String>) -> (r: Result<
        DependencyManager,
        LockError,
    >)
        ensures
            r is Ok <==> lock_intact(lock.dependencies@, present@),
            r matches Ok(m) ==> m.pulling_queue@.len() == 0 && m.lock == lock,
            r matches Err(e) ==> reports_stale(lock.dependencies@, present@, e),
    {
        match lock.validate(present) {
            Ok(()) => Ok(DependencyManager { pulling_queue: Vec::new(), lock }),
            Err(e) => Err(e),
        }
    }

    /// Selects one node per package among the fetched nodes and records
    /// the selection as the lock.
    pub fn resolve(&mut self, nodes: &Vec<DependencyTreeNode>) -> (r: Result<
        Vec<usize>,
        ResolutionError,
    >)
        ensures
            r is Ok <==> all_viable(nodes@),
            r matches Ok(sel) ==> is_selection(nodes@, sel@) && records_selection(
                final(self).lock.dependencies@,
                nodes@,
                sel@,
            ),
            r matches Err(e) ==> reports_no_viable(nodes@, e) && final(self).lock == old(self).lock,
            final(self).pulling_queue == old(self).pulling_queue,
    {
        match flatten(nodes) {
            Ok(sel) => {
                self.lock = DependencyLock::create(nodes, &sel);
                Ok(sel)
            },
            Err(e) => Err(e),
        }
    }

    /// The CMake includes of all locked packages, in lock order.
    pub fn get_target_properties(&self) -> (r: LibraryTargetProperties)
        ensures
            r.cmake_include@ == crate::lock::aggregate_includes(
                self.lock.dependencies@,
                self.lock.dependencies@.len() as int,
            ),
    {
        self.lock.aggregate_target_properties()
    }
}

} // verus!
