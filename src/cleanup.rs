//! Reconciling a stale lock with version-control state: which package
//! directories were never committed, and may therefore be removed.
use vstd::prelude::*;

use crate::lock::DependencyLock;

verus! {

/// The index of the last `/` among the first `n` characters of `p`, or -1.
pub open spec fn last_slash(p: Seq<char>, n: int) -> int
    decreases n,
{
    if n <= 0 {
        -1
    } else if p[n - 1] == '/' {
        n - 1
    } else {
        last_slash(p, n - 1)
    }
}

/// The directory part of a relative path: what precedes its last `/`.
pub open spec fn dir_of(p: Seq<char>) -> Option<Seq<char>> {
    let i = last_slash(p, p.len() as int);
    if i < 0 {
        None
    } else {
        Some(p.subrange(0, i))
    }
}

pub open spec fn contains_text(v: Seq<Seq<char>>, t: Seq<char>) -> bool {
    exists|i: int| 0 <= i < v.len() && v[i] == t
}

/// The distinct directories of the first `n` paths, in order of first appearance.
pub open spec fn dirs_of(paths: Seq<Seq<char>>, n: int) -> Seq<Seq<char>>
    decreases n,
{
    if n <= 0 {
        Seq::empty()
    } else {
        let before = dirs_of(paths, n - 1);
        match dir_of(paths[n - 1]) {
            Some(d) => if contains_text(before, d) {
                before
            } else {
                before.push(d)
            },
            None => before,
        }
    }
}

/// What trimming white space off both ends of a text leaves.
pub uninterp spec fn trimmed(s: Seq<char>) -> Seq<char>;

/// A character of Unicode's White_Space property.
pub open spec fn is_white_space(c: char) -> bool {
    ('\u{9}' <= c <= '\u{d}') || c == ' ' || c == '\u{85}' || c == '\u{a0}' || c == '\u{1680}' || (
    '\u{2000}' <= c <= '\u{200a}') || c == '\u{2028}' || c == '\u{2029}' || c == '\u{202f}' || c
        == '\u{205f}' || c == '\u{3000}'
}

/// Relies on str::trim: it removes leading and trailing White_Space, so the
/// result depends on the text alone, and a text that neither starts nor
/// ends with white space is returned as it is.
#[verifier::external_body]
fn trim_text(s: &str) -> (r: String)
    ensures
        r@ == trimmed(s@),
        s@.len() == 0 || (!is_white_space(s@[0]) && !is_white_space(s@.last())) ==> r@ == s@,
{
    s.trim().to_string()
}

pub open spec fn trimmed_all(lines: Seq<String>) -> Seq<Seq<char>> {
    lines.map_values(|l: String| trimmed(l@))
}

pub open spec fn views(v: Seq<String>) -> Seq<Seq<char>> {
    v.map_values(|s: String| s@)
}

/// The directory part of a relative path, if it has one.
pub fn parent_dir(path: &str) -> (r: Option<String>)
    ensures
        r is Some <==> dir_of(path@) is Some,
        r matches Some(d) ==> d@ == dir_of(path@)->0,
{
    let n = path.unicode_len();
    let mut i: usize = n;
    while i > 0
        invariant
            i <= n,
            n == path@.len(),
            last_slash(path@, n as int) == last_slash(path@, i as int),
        decreases i,
    {
        if path.get_char(i - 1) == '/' {
            let d = path.substring_char(0, i - 1);
            return Some(String::from_str(d));
        }
        i = i - 1;
    }
    None
}

fn contains_string(v: &Vec<String>, t: &String) -> (r: bool)
    ensures
        r == contains_text(views(v@), t@),
{
    let mut i: usize = 0;
    while i < v.len()
        invariant
            0 <= i <= v@.len(),
            forall|j: int| 0 <= j < i ==> v@[j]@ != t@,
        decreases v.len() - i,
    {
        if v[i] == *t {
            assert(views(v@)[i as int] == t@);
            return true;
        }
        i = i + 1;
    }
    assert(!contains_text(views(v@), t@));
    false
}

/// The distinct directories of the given relative paths, in order of first
/// appearance; paths without a directory part are passed over.
pub fn dirs_of_paths(paths: &Vec<String>) -> (r: Vec<String>)
    ensures
        views(r@) == dirs_of(views(paths@), paths@.len() as int),
{
    let mut out: Vec<String> = Vec::new();
    let mut i: usize = 0;
    while i < paths.len()
        invariant
            0 <= i <= paths@.len(),
            views(out@) == dirs_of(views(paths@), i as int),
        decreases paths.len() - i,
    {
        assert(views(paths@)[i as int] == paths@[i as int]@);
        match parent_dir(paths[i].as_str()) {
            Some(d) => {
                if !contains_string(&out, &d) {
                    out.push(d);
                    assert(views(out@) == views(out@).drop_last().push(d@));
                }
            },
            None => {},
        }
        i = i + 1;
    }
    out
}

/// The untracked directories that version control reports: `lines` are the
/// lines of its list of untracked files, which are trimmed before their
/// directory part is taken.
pub fn untracked_dirs(lines: &Vec<String>) -> (r: Vec<String>)
    ensures
        views(r@) == dirs_of(
            trimmed_all(lines@),
            lines@.len() as int,
        ),
{
    let mut paths: Vec<String> = Vec::new();
    let mut i: usize = 0;
    while i < lines.len()
        invariant
            0 <= i <= lines@.len(),
            views(paths@) == trimmed_all(lines@).subrange(0, i as int),
        decreases lines.len() - i,
    {
        let t = trim_text(lines[i].as_str());
        let ghost before = paths@;
        paths.push(t);
        assert(views(paths@) =~= views(before).push(trimmed(lines@[i as int]@)));
        assert(views(paths@) =~= trimmed_all(lines@).subrange(0, i + 1));
        i = i + 1;
    }
    assert(views(paths@) =~= trimmed_all(lines@));
    dirs_of_paths(&paths)
}

/// The names of the lock's packages, among the first `n` records, whose
/// directory is untracked: these are removed on cleanup.
pub open spec fn removal_targets(lock: DependencyLock, untracked: Seq<Seq<char>>, n: int) -> Seq<
    Seq<char>,
>
    decreases n,
{
    if n <= 0 {
        Seq::empty()
    } else {
        let before = removal_targets(lock, untracked, n - 1);
        let name = lock.dependencies@[n - 1].name@;
        if contains_text(untracked, name) {
            before.push(name)
        } else {
            before
        }
    }
}

/// The package directories that cleanup removes: those of lock records
/// whose name is among the untracked directories, in lock order. Tracked
/// directories are never among them.
pub fn cleanup_targets(lock: &DependencyLock, untracked: &Vec<String>) -> (r: Vec<String>)
    ensures
        views(r@) == removal_targets(*lock, views(untracked@), lock.dependencies@.len() as int),
{
    let mut out: Vec<String> = Vec::new();
    let mut k: usize = 0;
    while k < lock.dependencies.len()
        invariant
            0 <= k <= lock.dependencies@.len(),
            views(out@) == removal_targets(*lock, views(untracked@), k as int),
        decreases lock.dependencies.len() - k,
    {
        if contains_string(untracked, &lock.dependencies[k].name) {
            out.push(lock.dependencies[k].name.clone());
            assert(views(out@) == views(out@).drop_last().push(lock.dependencies@[k as int].name@));
        }
        k = k + 1;
    }
    out
}

} // verus!
