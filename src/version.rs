//! Versions and version requirements, in the textual form that the
//! `versions` crate parses. Parsing, matching a requirement clause and
//! ordering versions are that crate's; a requirement is the conjunction of
//! its clauses.
use vstd::prelude::*;

verus! {

/// The text parses as a version (`versions::Versioning`).
pub uninterp spec fn is_version_text(s: Seq<char>) -> bool;

/// The text parses as one requirement clause (`versions::Requirement`).
pub uninterp spec fn is_requirement_text(s: Seq<char>) -> bool;

/// The version that `version` spells meets the clause that `clause` spells.
pub uninterp spec fn clause_admits(clause: Seq<char>, version: Seq<char>) -> bool;

/// -1, 0 or 1 as the version `a` spells orders below, equal to or above
/// the one `b` spells.
pub uninterp spec fn version_order(a: Seq<char>, b: Seq<char>) -> int;

/// Relies on versions::Versioning::new, which parses a version or gives
/// nothing, by the text alone.
#[verifier::external_body]
fn parses_as_version(s: &str) -> (r: bool)
    ensures
        r == is_version_text(s@),
{
    versions::Versioning::new(s).is_some()
}

/// Relies on versions::Requirement::new, which parses a requirement clause
/// or gives nothing, by the text alone.
#[verifier::external_body]
fn parses_as_requirement(s: &str) -> (r: bool)
    ensures
        r == is_requirement_text(s@),
{
    versions::Requirement::new(s).is_some()
}

/// Relies on versions::Requirement::matches, applied to the parsed clause
/// and the parsed version; it depends on the two values alone.
#[verifier::external_body]
fn clause_matches(clause: &str, version: &str) -> (r: bool)
    requires
        is_requirement_text(clause@),
        is_version_text(version@),
    ensures
        r == clause_admits(clause@, version@),
{
    match (versions::Requirement::new(clause), versions::Versioning::new(version)) {
        (Some(c), Some(v)) => c.matches(&v),
        _ => false,
    }
}

/// Relies on the `Ord` of versions::Versioning, applied to the two parsed
/// versions; it depends on the two values alone.
#[verifier::external_body]
fn compare_versions(a: &str, b: &str) -> (r: i8)
    requires
        is_version_text(a@),
        is_version_text(b@),
    ensures
        r as int == version_order(a@, b@),
        -1 <= r <= 1,
{
    match (versions::Versioning::new(a), versions::Versioning::new(b)) {
        (Some(x), Some(y)) => match x.cmp(&y) {
            std::cmp::Ordering::Less => -1,
            std::cmp::Ordering::Equal => 0,
            std::cmp::Ordering::Greater => 1,
        },
        _ => 0,
    }
}

/// A version, kept as the text it was written in; it always parses.
#[derive(Debug, PartialEq, Eq)]
pub struct Version {
    text: String,
}

impl View for Version {
    type V = Seq<char>;

    closed spec fn view(&self) -> Seq<char> {
        self.text@
    }
}

impl Version {
    #[verifier::type_invariant]
    closed spec fn inv(&self) -> bool {
        is_version_text(self.text@)
    }

    /// The version that `text` spells, if it spells one.
    pub fn parse(text: &str) -> (r: Option<Version>)
        ensures
            r is Some <==> is_version_text(text@),
            r matches Some(v) ==> v@ == text@,
    {
        if parses_as_version(text) {
            Some(Version { text: String::from_str(text) })
        } else {
            None
        }
    }

    pub fn as_str(&self) -> (r: &str)
        ensures
            r@ == self@,
    {
        self.text.as_str()
    }

    /// -1, 0 or 1 as `self` orders below, equal to or above `other`.
    pub fn compare(&self, other: &Version) -> (r: i8)
        ensures
            r as int == version_order(self@, other@),
            -1 <= r <= 1,
    {
        proof {
            use_type_invariant(self);
            use_type_invariant(other);
        }
        compare_versions(self.text.as_str(), other.text.as_str())
    }

    pub fn duplicate(&self) -> (r: Version)
        ensures
            r@ == self@,
    {
        proof {
            use_type_invariant(self);
        }
        Version { text: self.text.clone() }
    }
}

impl Clone for Version {
    fn clone(&self) -> (r: Version)
        ensures
            r@ == self@,
    {
        self.duplicate()
    }
}

/// One clause of a requirement, such as `>=1.0`, `^1.2` or `*`, kept as
/// the text it was written in; it always parses.
#[derive(Debug, PartialEq, Eq)]
pub struct Comparator {
    text: String,
}

impl View for Comparator {
    type V = Seq<char>;

    closed spec fn view(&self) -> Seq<char> {
        self.text@
    }
}

impl Comparator {
    #[verifier::type_invariant]
    closed spec fn inv(&self) -> bool {
        is_requirement_text(self.text@)
    }

    /// The clause that `text` spells, if it spells one.
    pub fn parse(text: &str) -> (r: Option<Comparator>)
        ensures
            r is Some <==> is_requirement_text(text@),
            r matches Some(c) ==> c@ == text@,
    {
        if parses_as_requirement(text) {
            Some(Comparator { text: String::from_str(text) })
        } else {
            None
        }
    }

    pub fn as_str(&self) -> (r: &str)
        ensures
            r@ == self@,
    {
        self.text.as_str()
    }

    pub fn matches(&self, v: &Version) -> (r: bool)
        ensures
            r == clause_admits(self@, v@),
    {
        proof {
            use_type_invariant(self);
            use_type_invariant(v);
        }
        clause_matches(self.text.as_str(), v.as_str())
    }

    pub fn duplicate(&self) -> (r: Comparator)
        ensures
            r@ == self@,
    {
        proof {
            use_type_invariant(self);
        }
        Comparator { text: self.text.clone() }
    }
}

impl Clone for Comparator {
    fn clone(&self) -> (r: Comparator)
        ensures
            r@ == self@,
    {
        self.duplicate()
    }
}

/// A version requirement: the conjunction of its clauses. With no clause
/// every version meets it.
#[derive(Clone, Debug, PartialEq, Eq)]
pub struct Requirement {
    pub clauses: Vec<Comparator>,
}

impl Requirement {
    pub open spec fn admits(self, v: Seq<char>) -> bool {
        forall|k: int| 0 <= k < self.clauses@.len() ==> clause_admits((#[trigger] self.clauses@[k])@, v)
    }

    /// Two requirements state the same clauses.
    pub open spec fn same_as(self, other: Requirement) -> bool {
        &&& self.clauses@.len() == other.clauses@.len()
        &&& forall|k: int| 0 <= k < self.clauses@.len() ==> (#[trigger] self.clauses@[k])@ == other.clauses@[k]@
    }

    pub fn new(clauses: Vec<Comparator>) -> (r: Requirement)
        ensures
            r.clauses@ == clauses@,
    {
        Requirement { clauses }
    }

    /// The requirement that every version meets.
    pub fn any() -> (r: Requirement)
        ensures
            r.clauses@.len() == 0,
            forall|v: Seq<char>| r.admits(v),
    {
        Requirement { clauses: Vec::new() }
    }

    /// Whether `v` meets every clause.
    pub fn matches(&self, v: &Version) -> (r: bool)
        ensures
            r == self.admits(v@),
    {
        let mut k: usize = 0;
        while k < self.clauses.len()
            invariant
                0 <= k <= self.clauses@.len(),
                forall|j: int| 0 <= j < k ==> clause_admits((#[trigger] self.clauses@[j])@, v@),
            decreases self.clauses.len() - k,
        {
            if !self.clauses[k].matches(v) {
                return false;
            }
            k = k + 1;
        }
        true
    }

    pub fn duplicate(&self) -> (r: Requirement)
        ensures
            r.same_as(*self),
    {
        let mut clauses: Vec<Comparator> = Vec::new();
        let mut k: usize = 0;
        while k < self.clauses.len()
            invariant
                0 <= k <= self.clauses@.len(),
                clauses@.len() == k,
                forall|j: int| 0 <= j < k ==> (#[trigger] clauses@[j])@ == self.clauses@[j]@,
            decreases self.clauses.len() - k,
        {
            clauses.push(self.clauses[k].duplicate());
            k = k + 1;
        }
        Requirement { clauses }
    }
}

} // verus!
