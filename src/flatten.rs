//! Selection of one fetched node per package name.
//!
//! Every node carries the requirement of the edge that discovered it. For
//! each name, a candidate is viable when its version meets the requirements
//! of all nodes of that name. The viable candidates are taken in order of
//! discovery, and one replaces the current pick only when its version orders
//! strictly above the pick's: the highest version wins, the earliest
//! discovered among equals. There is no search across alternative origins:
//! where no candidate is viable, selection fails.
use vstd::prelude::*;

use crate::tree::DependencyTreeNode;
use crate::version::{version_order, Requirement, Version};

verus! {

/// Why a resolution pass failed.
#[derive(Clone, Debug, PartialEq, Eq)]
pub enum ResolutionError {
    /// No fetched candidate of this name meets every requirement on it;
    /// `requirements` are those requirements, in order of discovery.
    NoViableVersion { name: String, requirements: Vec<Requirement> },
    /// The fetched manifest of this package declares no library.
    NotALibrary { name: String },
    /// The fetched manifest declares a version (`found`) that the request
    /// (`requested`) excludes.
    VersionMismatch { name: String, requested: Requirement, found: Version },
}

pub open spec fn same_name(nodes: Seq<DependencyTreeNode>, i: int, j: int) -> bool {
    nodes[i].name@ == nodes[j].name@
}

/// Node `i`'s version meets the requirement of every node of its name.
pub open spec fn viable(nodes: Seq<DependencyTreeNode>, i: int) -> bool {
    forall|j: int|
        0 <= j < nodes.len() && #[trigger] same_name(nodes, j, i)
            ==> nodes[j].package.version.admits(nodes[i].version@)
}

/// Some node of `i`'s name is viable.
pub open spec fn has_viable(nodes: Seq<DependencyTreeNode>, i: int) -> bool {
    exists|j: int| 0 <= j < nodes.len() && #[trigger] same_name(nodes, j, i) && viable(nodes, j)
}

/// The pick for the name of node `i` after the first `n` nodes: a viable
/// node of that name replaces the current pick when its version orders
/// strictly above the pick's.
pub open spec fn pick_upto(nodes: Seq<DependencyTreeNode>, i: int, n: int) -> Option<int>
    decreases n,
{
    if n <= 0 {
        None
    } else {
        let prev = pick_upto(nodes, i, n - 1);
        let k = n - 1;
        if same_name(nodes, k, i) && viable(nodes, k) {
            match prev {
                None => Some(k),
                Some(b) => if version_order(nodes[k].version@, nodes[b].version@) > 0 {
                    Some(k)
                } else {
                    prev
                },
            }
        } else {
            prev
        }
    }
}

/// Node `i` is the one selected for its name.
pub open spec fn is_chosen(nodes: Seq<DependencyTreeNode>, i: int) -> bool {
    0 <= i < nodes.len() && pick_upto(nodes, i, nodes.len() as int) == Some(i)
}

/// What a pick is: a viable node of the name, or nothing where no node of
/// the name is viable.
pub proof fn lemma_pick_facts(nodes: Seq<DependencyTreeNode>, i: int, n: int)
    requires
        0 <= i < nodes.len(),
        n <= nodes.len(),
    ensures
        pick_upto(nodes, i, n) matches Some(b) ==> 0 <= b < n && same_name(nodes, b, i) && viable(
            nodes,
            b,
        ),
        pick_upto(nodes, i, n) is None ==> forall|j: int|
            0 <= j < n && #[trigger] same_name(nodes, j, i) ==> !viable(nodes, j),
    decreases n,
{
    if n > 0 {
        lemma_pick_facts(nodes, i, n - 1);
    }
}

/// The pick depends on the name alone.
pub proof fn lemma_pick_by_name(nodes: Seq<DependencyTreeNode>, i: int, j: int, n: int)
    requires
        0 <= i < nodes.len(),
        0 <= j < nodes.len(),
        same_name(nodes, i, j),
    ensures
        pick_upto(nodes, i, n) == pick_upto(nodes, j, n),
    decreases n,
{
    if n > 0 {
        lemma_pick_by_name(nodes, i, j, n - 1);
        assert(same_name(nodes, n - 1, i) == same_name(nodes, n - 1, j));
    }
}

/// Node `i` is the first discovered of its name.
pub open spec fn is_first(nodes: Seq<DependencyTreeNode>, i: int) -> bool {
    forall|j: int| 0 <= j < i ==> !(#[trigger] same_name(nodes, j, i))
}

/// The indices below `n` of nodes first discovered of their name, in order.
pub open spec fn first_indices(nodes: Seq<DependencyTreeNode>, n: int) -> Seq<int>
    decreases n,
{
    if n <= 0 {
        Seq::empty()
    } else if is_first(nodes, n - 1) {
        first_indices(nodes, n - 1).push(n - 1)
    } else {
        first_indices(nodes, n - 1)
    }
}

/// A correct selection: for the `k`-th name in order of first discovery,
/// entry `k` is the index of the node chosen for that name.
pub open spec fn is_selection(nodes: Seq<DependencyTreeNode>, sel: Seq<usize>) -> bool {
    let firsts = first_indices(nodes, nodes.len() as int);
    &&& sel.len() == firsts.len()
    &&& forall|k: int|
        0 <= k < sel.len() ==> is_chosen(nodes, #[trigger] sel[k] as int) && same_name(
            nodes,
            sel[k] as int,
            firsts[k],
        )
}

/// Every name has a viable candidate.
pub open spec fn all_viable(nodes: Seq<DependencyTreeNode>) -> bool {
    forall|i: int| 0 <= i < nodes.len() ==> #[trigger] has_viable(nodes, i)
}

/// The requirements levied on the name of node `i` by the first `n` nodes.
pub open spec fn requirements_on(nodes: Seq<DependencyTreeNode>, i: int, n: int) -> Seq<Requirement>
    decreases n,
{
    if n <= 0 {
        Seq::empty()
    } else if same_name(nodes, n - 1, i) {
        requirements_on(nodes, i, n - 1).push(nodes[n - 1].package.version)
    } else {
        requirements_on(nodes, i, n - 1)
    }
}

/// `reqs` states, one for one, the same clauses as `expected`.
pub open spec fn same_requirements(reqs: Seq<Requirement>, expected: Seq<Requirement>) -> bool {
    &&& reqs.len() == expected.len()
    &&& forall|k: int| 0 <= k < reqs.len() ==> (#[trigger] reqs[k]).same_as(expected[k])
}

fn requirements_of(nodes: &Vec<DependencyTreeNode>, i: usize) -> (r: Vec<Requirement>)
    requires
        i < nodes@.len(),
    ensures
        same_requirements(r@, requirements_on(nodes@, i as int, nodes@.len() as int)),
{
    let mut out: Vec<Requirement> = Vec::new();
    let mut j: usize = 0;
    while j < nodes.len()
        invariant
            0 <= j <= nodes@.len(),
            i < nodes@.len(),
            same_requirements(out@, requirements_on(nodes@, i as int, j as int)),
        decreases nodes.len() - j,
    {
        if nodes[j].name == nodes[i].name {
            out.push(nodes[j].package.version.duplicate());
        }
        j = j + 1;
    }
    out
}

proof fn lemma_first_exists(nodes: Seq<DependencyTreeNode>, i: int)
    requires
        0 <= i < nodes.len(),
    ensures
        exists|f: int| 0 <= f <= i && is_first(nodes, f) && #[trigger] same_name(nodes, f, i),
    decreases i,
{
    if is_first(nodes, i) {
        assert(same_name(nodes, i, i));
    } else {
        let j = choose|j: int| 0 <= j < i && #[trigger] same_name(nodes, j, i);
        lemma_first_exists(nodes, j);
        let f = choose|f: int| 0 <= f <= j && is_first(nodes, f) && #[trigger] same_name(nodes, f, j);
        assert(same_name(nodes, f, i));
    }
}

fn is_viable(nodes: &Vec<DependencyTreeNode>, i: usize) -> (r: bool)
    requires
        i < nodes@.len(),
    ensures
        r == viable(nodes@, i as int),
{
    let mut j: usize = 0;
    while j < nodes.len()
        invariant
            0 <= j <= nodes@.len(),
            i < nodes@.len(),
            forall|k: int|
                0 <= k < j && #[trigger] same_name(nodes@, k, i as int)
                    ==> nodes@[k].package.version.admits(nodes@[i as int].version@),
        decreases nodes.len() - j,
    {
        if nodes[j].name == nodes[i].name && !nodes[j].package.version.matches(&nodes[i].version) {
            assert(same_name(nodes@, j as int, i as int));
            return false;
        }
        j = j + 1;
    }
    true
}

fn is_first_of_name(nodes: &Vec<DependencyTreeNode>, i: usize) -> (r: bool)
    requires
        i < nodes@.len(),
    ensures
        r == is_first(nodes@, i as int),
{
    let mut j: usize = 0;
    while j < i
        invariant
            0 <= j <= i,
            i < nodes@.len(),
            forall|k: int| 0 <= k < j ==> !(#[trigger] same_name(nodes@, k, i as int)),
        decreases i - j,
    {
        if nodes[j].name == nodes[i].name {
            assert(same_name(nodes@, j as int, i as int));
            return false;
        }
        j = j + 1;
    }
    true
}

/// The node chosen for the name of node `i`, if any node of that name is viable.
fn best_candidate(nodes: &Vec<DependencyTreeNode>, i: usize) -> (r: Option<usize>)
    requires
        i < nodes@.len(),
    ensures
        r is None <==> !has_viable(nodes@, i as int),
        r matches Some(b) ==> is_chosen(nodes@, b as int) && same_name(nodes@, b as int, i as int),
{
    let ghost s = nodes@;
    let mut best: Option<usize> = None;
    let mut k: usize = 0;
    while k < nodes.len()
        invariant
            0 <= k <= s.len(),
            s == nodes@,
            i < s.len(),
            best matches Some(b) ==> b < k,
            pick_upto(s, i as int, k as int) == (match best {
                Some(b) => Some(b as int),
                None => None::<int>,
            }),
        decreases s.len() - k,
    {
        if nodes[k].name == nodes[i].name && is_viable(nodes, k) {
            assert(same_name(s, k as int, i as int));
            match best {
                None => {
                    best = Some(k);
                },
                Some(b) => {
                    if nodes[k].version.compare(&nodes[b].version) > 0 {
                        best = Some(k);
                    }
                },
            }
        }
        k = k + 1;
    }
    proof {
        lemma_pick_facts(s, i as int, s.len() as int);
        if best is None {
            if has_viable(s, i as int) {
                let j = choose|j: int| 0 <= j < s.len() && #[trigger] same_name(s, j, i as int) && viable(s, j);
            }
        } else {
            let b = best->0;
            assert(same_name(s, b as int, i as int));
            lemma_pick_by_name(s, b as int, i as int, s.len() as int);
        }
    }
    best
}

/// `e` reports the earliest discovered name that has no viable candidate,
/// with the requirements levied on it.
pub open spec fn reports_no_viable(nodes: Seq<DependencyTreeNode>, e: ResolutionError) -> bool {
    exists|i: int|
        0 <= i < nodes.len() && is_first(nodes, i) && !has_viable(nodes, i) && (e matches ResolutionError::NoViableVersion {
            name,
            requirements,
        } && name == nodes[i].name && same_requirements(
            requirements@,
            requirements_on(nodes, i, nodes.len() as int),
        )) && forall|p: int| 0 <= p < i ==> #[trigger] has_viable(nodes, p)
}

/// Selects one node per package name, in order of first discovery.
///
/// Succeeds exactly when every name has a viable candidate; otherwise it
/// reports the earliest discovered name that has none.
pub fn flatten(nodes: &Vec<DependencyTreeNode>) -> (r: Result<Vec<usize>, ResolutionError>)
    ensures
        r is Ok <==> all_viable(nodes@),
        r matches Ok(sel) ==> is_selection(nodes@, sel@),
        r matches Err(e) ==> reports_no_viable(nodes@, e),
{
    let ghost s = nodes@;
    let mut sel: Vec<usize> = Vec::new();
    let mut i: usize = 0;
    while i < nodes.len()
        invariant
            0 <= i <= s.len(),
            s == nodes@,
            sel@.len() == first_indices(s, i as int).len(),
            forall|k: int|
                0 <= k < sel@.len() ==> is_chosen(s, #[trigger] sel@[k] as int) && same_name(
                    s,
                    sel@[k] as int,
                    first_indices(s, i as int)[k],
                ),
            forall|p: int| 0 <= p < i ==> #[trigger] has_viable(s, p),
        decreases s.len() - i,
    {
        if is_first_of_name(nodes, i) {
            match best_candidate(nodes, i) {
                Some(b) => {
                    sel.push(b);
                },
                None => {
                    return Err(
                        ResolutionError::NoViableVersion {
                            name: nodes[i].name.clone(),
                            requirements: requirements_of(nodes, i),
                        },
                    );
                },
            }
        } else {
            proof {
                lemma_first_exists(s, i as int);
                let f = choose|f: int| 0 <= f <= i && is_first(s, f) && #[trigger] same_name(s, f, i as int);
                assert(has_viable(s, f));
                let j = choose|j: int| 0 <= j < s.len() && #[trigger] same_name(s, j, f) && viable(s, j);
                assert(same_name(s, j, i as int));
            }
        }
        i = i + 1;
    }
    Ok(sel)
}

} // verus!
