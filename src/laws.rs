//! Properties that relate several operations of the library.
use vstd::prelude::*;

use crate::flatten::{
    first_indices, is_chosen, is_selection, lemma_pick_by_name, lemma_pick_facts, pick_upto, same_name,
    viable,
};
use crate::version::version_order;
use crate::lock::{layout_of, records_node, records_selection, LibraryEntry, PackageLock};
use crate::digest::{hex_text, lemma_digest_permutation, tree_digest, FileEntry};
use crate::management::{builds_node, cache_location, FetchedPackage};
use crate::tree::{DependencyTreeNode, PackageDetails};

verus! {

/// Two lock records hold the same values.
pub open spec fn same_record(a: PackageLock, b: PackageLock) -> bool {
    &&& a.name@ == b.name@
    &&& a.version@ == b.version@
    &&& a.source.source_type == b.source.source_type
    &&& a.source.uri@ == b.source.uri@
    &&& a.source.rev == b.source.rev
    &&& a.checksum@ == b.checksum@
    &&& a.include_path@ == b.include_path@
    &&& a.properties.cmake_include@ == b.properties.cmake_include@
}

proof fn lemma_chosen_unique(nodes: Seq<DependencyTreeNode>, a: int, b: int)
    requires
        is_chosen(nodes, a),
        is_chosen(nodes, b),
        same_name(nodes, a, b),
    ensures
        a == b,
{
    lemma_pick_by_name(nodes, a, b, nodes.len() as int);
}

/// The order on the nodes' versions is a total preorder: antisymmetric in
/// sign and transitive.
pub open spec fn order_is_total(nodes: Seq<DependencyTreeNode>) -> bool {
    &&& forall|a: int, b: int|
        0 <= a < nodes.len() && 0 <= b < nodes.len() ==> #[trigger] version_order(
            nodes[a].version@,
            nodes[b].version@,
        ) == -version_order(nodes[b].version@, nodes[a].version@)
    &&& forall|a: int, b: int, c: int|
        0 <= a < nodes.len() && 0 <= b < nodes.len() && 0 <= c < nodes.len() && #[trigger] version_order(
            nodes[a].version@,
            nodes[b].version@,
        ) <= 0 && #[trigger] version_order(nodes[b].version@, nodes[c].version@) <= 0
            ==> version_order(nodes[a].version@, nodes[c].version@) <= 0
}

proof fn lemma_pick_highest_upto(nodes: Seq<DependencyTreeNode>, i: int, n: int)
    requires
        order_is_total(nodes),
        0 <= i < nodes.len(),
        0 <= n <= nodes.len(),
    ensures
        pick_upto(nodes, i, n) matches Some(b) ==> forall|j: int|
            0 <= j < n && #[trigger] same_name(nodes, j, i) && viable(nodes, j) ==> {
                &&& version_order(nodes[j].version@, nodes[b].version@) <= 0
                &&& j < b ==> version_order(nodes[j].version@, nodes[b].version@) < 0
            },
    decreases n,
{
    if n > 0 {
        lemma_pick_highest_upto(nodes, i, n - 1);
        lemma_pick_facts(nodes, i, n - 1);
        let k = n - 1;
        let vk = nodes[k].version@;
        assert(version_order(vk, vk) == -version_order(vk, vk));
        if let Some(b) = pick_upto(nodes, i, n) {
            if b == k {
                if let Some(p) = pick_upto(nodes, i, n - 1) {
                    let vp = nodes[p].version@;
                    assert(version_order(vk, vp) == -version_order(vp, vk));
                    assert forall|j: int|
                        0 <= j < n && #[trigger] same_name(nodes, j, i) && viable(nodes, j) implies {
                            &&& version_order(nodes[j].version@, vk) <= 0
                            &&& j < k ==> version_order(nodes[j].version@, vk) < 0
                        } by {
                        if j < k {
                            let vj = nodes[j].version@;
                            assert(version_order(vj, vp) <= 0);
                            assert(version_order(vp, vk) <= 0);
                            assert(version_order(vj, vk) <= 0);
                            if version_order(vj, vk) == 0 {
                                assert(version_order(vk, vj) == -version_order(vj, vk));
                                assert(version_order(vk, vj) <= 0 && version_order(vj, vp) <= 0);
                                assert(version_order(vk, vp) <= 0);
                            }
                        }
                    }
                }
            }
        }
    }
}

/// Where the order on the versions is a total preorder, the selected node
/// has the highest version among the viable nodes of its name, and a
/// strictly higher one than every viable node discovered before it.
pub proof fn lemma_chosen_is_highest(nodes: Seq<DependencyTreeNode>, b: int)
    requires
        order_is_total(nodes),
        is_chosen(nodes, b),
    ensures
        viable(nodes, b),
        forall|j: int|
            0 <= j < nodes.len() && #[trigger] same_name(nodes, j, b) && viable(nodes, j) ==> {
                &&& version_order(nodes[j].version@, nodes[b].version@) <= 0
                &&& j < b ==> version_order(nodes[j].version@, nodes[b].version@) < 0
            },
{
    lemma_pick_facts(nodes, b, nodes.len() as int);
    lemma_pick_highest_upto(nodes, b, nodes.len() as int);
}

/// Determinism: the discovered nodes fix the selection, and the selection
/// fixes every value of the lock; resolving the same nodes again yields the
/// same lock records.
pub proof fn lemma_resolution_deterministic(
    nodes: Seq<DependencyTreeNode>,
    sel1: Seq<usize>,
    sel2: Seq<usize>,
    lock1: Seq<PackageLock>,
    lock2: Seq<PackageLock>,
)
    requires
        is_selection(nodes, sel1),
        is_selection(nodes, sel2),
        records_selection(lock1, nodes, sel1),
        records_selection(lock2, nodes, sel2),
    ensures
        sel1 == sel2,
        lock1.len() == lock2.len(),
        forall|k: int| 0 <= k < lock1.len() ==> same_record(#[trigger] lock1[k], lock2[k]),
{
    let firsts = first_indices(nodes, nodes.len() as int);
    assert forall|k: int| 0 <= k < sel1.len() implies sel1[k] == sel2[k] by {
        assert(is_chosen(nodes, sel1[k] as int) && same_name(nodes, sel1[k] as int, firsts[k]));
        assert(is_chosen(nodes, sel2[k] as int) && same_name(nodes, sel2[k] as int, firsts[k]));
        lemma_chosen_unique(nodes, sel1[k] as int, sel2[k] as int);
    }
    assert(sel1 =~= sel2);
    assert forall|k: int| 0 <= k < lock1.len() implies same_record(#[trigger] lock1[k], lock2[k]) by {
        assert(records_node(lock1[k], nodes[sel1[k] as int]));
        assert(records_node(lock2[k], nodes[sel2[k] as int]));
    }
}

/// Fetching the same tree twice, its files listed in any order, gives the
/// same content hash and the same place in the cache, under any package
/// name: the cache keeps one copy.
pub proof fn lemma_refetch_same_location(
    files1: Seq<FileEntry>,
    files2: Seq<FileEntry>,
    node1: DependencyTreeNode,
    node2: DependencyTreeNode,
    name1: Seq<char>,
    name2: Seq<char>,
    package1: PackageDetails,
    package2: PackageDetails,
    fetched1: FetchedPackage,
    fetched2: FetchedPackage,
    root: Seq<char>,
)
    requires
        files1.to_multiset() =~= files2.to_multiset(),
        fetched1.hash@ == hex_text(tree_digest(files1)),
        fetched2.hash@ == hex_text(tree_digest(files2)),
        builds_node(node1, name1, package1, fetched1, root),
        builds_node(node2, name2, package2, fetched2, root),
    ensures
        node1.hash@ == node2.hash@,
        node1.location@ == node2.location@,
        node1.location@ == cache_location(root, node1.hash@),
{
    lemma_digest_permutation(files1, files2);
}

/// Materialising one lock twice gives the same library folder.
pub proof fn lemma_layout_reproduced(
    lock: Seq<PackageLock>,
    entries1: Seq<LibraryEntry>,
    entries2: Seq<LibraryEntry>,
)
    requires
        layout_of(lock, entries1),
        layout_of(lock, entries2),
    ensures
        entries1.len() == entries2.len(),
        forall|k: int|
            0 <= k < entries1.len() ==> (#[trigger] entries1[k]).name@ == entries2[k].name@
                && entries1[k].checksum@ == entries2[k].checksum@ && entries1[k].include_path@
                == entries2[k].include_path@,
{
}

} // verus!
