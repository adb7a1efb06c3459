//! The content hash of a directory tree: a 64-bit FNV-1a digest of each
//! file's relative path and content, summed over the files so that the
//! order in which the tree was walked does not matter. Path separators are
//! normalised to `/` before hashing.
use vstd::prelude::*;

verus! {

pub const FNV_OFFSET: u64 = 0xcbf29ce484222325;

pub const FNV_PRIME: u64 = 0x100000001b3;

pub open spec fn digest_modulus() -> int {
    0x1_0000_0000_0000_0000
}

/// One file of a tree: its path relative to the tree's root, and its bytes.
#[derive(Clone, Debug, PartialEq, Eq)]
pub struct FileEntry {
    pub path: Vec<u8>,
    pub content: Vec<u8>,
}

/// A backslash counts as a path separator.
pub open spec fn normalized(b: u8) -> u8 {
    if b == 92 {
        47
    } else {
        b
    }
}

pub open spec fn fnv_step(h: u64, b: u8) -> u64 {
    vstd::wrapping::u64_specs::wrapping_mul(h ^ (b as u64), FNV_PRIME)
}

/// FNV-1a over the first `n` bytes, starting from `h`.
pub open spec fn fnv_upto(h: u64, bytes: Seq<u8>, n: int) -> u64
    decreases n,
{
    if n <= 0 {
        h
    } else {
        fnv_step(fnv_upto(h, bytes, n - 1), bytes[n - 1])
    }
}

pub open spec fn normalized_path(p: Seq<u8>) -> Seq<u8> {
    p.map_values(|b: u8| normalized(b))
}

/// The hash of one file: its normalised path, a zero byte, its content.
pub open spec fn entry_hash(e: FileEntry) -> u64 {
    let p = normalized_path(e.path@);
    let h = fnv_step(fnv_upto(FNV_OFFSET, p, p.len() as int), 0);
    fnv_upto(h, e.content@, e.content@.len() as int)
}

pub open spec fn sum_hashes(entries: Seq<FileEntry>) -> int
    decreases entries.len(),
{
    if entries.len() == 0 {
        0
    } else {
        sum_hashes(entries.drop_last()) + entry_hash(entries.last()) as int
    }
}

/// The content hash of a tree with the given files.
pub open spec fn tree_digest(entries: Seq<FileEntry>) -> u64 {
    (sum_hashes(entries) % digest_modulus()) as u64
}

fn fnv_bytes(h: u64, bytes: &Vec<u8>, normalize: bool) -> (r: u64)
    ensures
        !normalize ==> r == fnv_upto(h, bytes@, bytes@.len() as int),
        normalize ==> r == fnv_upto(h, normalized_path(bytes@), bytes@.len() as int),
{
    let ghost s = if normalize { normalized_path(bytes@) } else { bytes@ };
    let mut acc = h;
    let mut i: usize = 0;
    while i < bytes.len()
        invariant
            0 <= i <= bytes@.len(),
            s == (if normalize { normalized_path(bytes@) } else { bytes@ }),
            acc == fnv_upto(h, s, i as int),
        decreases bytes.len() - i,
    {
        let b0 = bytes[i];
        let b: u8 = if normalize && b0 == 92 { 47 } else { b0 };
        assert(s[i as int] == b);
        acc = (acc ^ (b as u64)).wrapping_mul(FNV_PRIME);
        i = i + 1;
    }
    acc
}

/// The hash of one file.
pub fn hash_entry(e: &FileEntry) -> (r: u64)
    ensures
        r == entry_hash(*e),
{
    let h = fnv_bytes(FNV_OFFSET, &e.path, true);
    let h = (h ^ 0u64).wrapping_mul(FNV_PRIME);
    assert(h == fnv_step(fnv_upto(FNV_OFFSET, normalized_path(e.path@), normalized_path(e.path@).len() as int), 0));
    fnv_bytes(h, &e.content, false)
}

/// The content hash of a tree, given its files in any order.
pub fn checksum(entries: &Vec<FileEntry>) -> (r: u64)
    ensures
        r == tree_digest(entries@),
{
    let mut acc: u64 = 0;
    let mut i: usize = 0;
    while i < entries.len()
        invariant
            0 <= i <= entries@.len(),
            acc as int == sum_hashes(entries@.subrange(0, i as int)) % digest_modulus(),
        decreases entries.len() - i,
    {
        let h = hash_entry(&entries[i]);
        proof {
            let pre = entries@.subrange(0, i as int);
            let next = entries@.subrange(0, i + 1);
            assert(next.drop_last() =~= pre);
            assert(next.last() == entries@[i as int]);
            lemma_mod_add(sum_hashes(pre), h as int);
        }
        acc = acc.wrapping_add(h);
        i = i + 1;
    }
    assert(entries@.subrange(0, entries@.len() as int) =~= entries@);
    acc
}

proof fn lemma_mod_add(a: int, h: int)
    requires
        0 <= h < digest_modulus(),
    ensures
        ((a % digest_modulus()) + h) % digest_modulus() == (a + h) % digest_modulus(),
{
    vstd::arithmetic::div_mod::lemma_add_mod_noop(a, h, digest_modulus());
    vstd::arithmetic::div_mod::lemma_mod_twice(h, digest_modulus());
    vstd::arithmetic::div_mod::lemma_small_mod(h as nat, digest_modulus() as nat);
}

proof fn lemma_sum_concat(a: Seq<FileEntry>, b: Seq<FileEntry>)
    ensures
        sum_hashes(a + b) == sum_hashes(a) + sum_hashes(b),
    decreases b.len(),
{
    if b.len() > 0 {
        lemma_sum_concat(a, b.drop_last());
        assert((a + b).drop_last() =~= a + b.drop_last());
    } else {
        assert(a + b =~= a);
    }
}

proof fn lemma_sum_remove(b: Seq<FileEntry>, p: int)
    requires
        0 <= p < b.len(),
    ensures
        sum_hashes(b) == sum_hashes(b.remove(p)) + entry_hash(b[p]) as int,
{
    let pre = b.subrange(0, p);
    let post = b.subrange(p + 1, b.len() as int);
    assert(b =~= pre + (seq![b[p]] + post));
    assert(b.remove(p) =~= pre + post);
    lemma_sum_concat(pre, seq![b[p]] + post);
    lemma_sum_concat(seq![b[p]], post);
    lemma_sum_concat(pre, post);
    let one = seq![b[p]];
    assert(one.drop_last() =~= Seq::<FileEntry>::empty());
    assert(sum_hashes(one.drop_last()) == 0);
    assert(sum_hashes(one) == entry_hash(b[p]) as int);
}

proof fn lemma_sum_permutation(a: Seq<FileEntry>, b: Seq<FileEntry>)
    requires
        a.to_multiset() =~= b.to_multiset(),
    ensures
        sum_hashes(a) == sum_hashes(b),
    decreases a.len(),
{
    broadcast use vstd::seq_lib::group_seq_properties;

    if a.len() == 0 {
        assert(b.to_multiset().len() == 0);
        assert(b.len() == 0);
    } else {
        let x = a.last();
        let rest = a.drop_last();
        assert(a =~= rest.push(x));
        assert(a.to_multiset().count(x) > 0);
        assert(b.contains(x));
        let p = choose|p: int| 0 <= p < b.len() && b[p] == x;
        assert(rest.to_multiset() =~= a.to_multiset().remove(x));
        assert(b.remove(p).to_multiset() =~= b.to_multiset().remove(x));
        lemma_sum_permutation(rest, b.remove(p));
        lemma_sum_remove(b, p);
    }
}

/// The content hash does not depend on the order in which the files were
/// listed: two listings of the same files give the same hash.
pub proof fn lemma_digest_permutation(a: Seq<FileEntry>, b: Seq<FileEntry>)
    requires
        a.to_multiset() =~= b.to_multiset(),
    ensures
        tree_digest(a) == tree_digest(b),
        hex_text(tree_digest(a)) == hex_text(tree_digest(b)),
{
    lemma_sum_permutation(a, b);
}

/// The lowercase hex digit of `n`, for `0 <= n < 16`.
pub open spec fn hex_digit(n: int) -> char {
    if n < 10 {
        (48 + n) as char
    } else {
        (87 + n) as char
    }
}

/// The low `n` hex digits of `x`, most significant first.
pub open spec fn hex_low(x: nat, n: nat) -> Seq<char>
    decreases n,
{
    if n == 0 {
        Seq::empty()
    } else {
        hex_low(x / 16, (n - 1) as nat).push(hex_digit((x % 16) as int))
    }
}

/// A digest as text: sixteen lowercase hex digits.
pub open spec fn hex_text(d: u64) -> Seq<char> {
    hex_low(d as nat, 16)
}

fn hex_digit_text(n: u64) -> (r: &'static str)
    requires
        n < 16,
    ensures
        r@ == seq![hex_digit(n as int)],
{
    let digits = "0123456789abcdef";
    proof {
        reveal_strlit("0123456789abcdef");
    }
    let r = digits.substring_char(n as usize, n as usize + 1);
    assert(r@ =~= seq![hex_digit(n as int)]);
    r
}

/// The content hash of a tree as sixteen lowercase hex digits: the name
/// of its directory in the cache.
pub fn checksum_text(entries: &Vec<FileEntry>) -> (r: String)
    ensures
        r@ == hex_text(tree_digest(entries@)),
{
    let d = checksum(entries);
    let mut x: u64 = d;
    let mut acc = String::new();
    let mut i: u64 = 0;
    while i < 16
        invariant
            i <= 16,
            hex_text(d) == hex_low(x as nat, (16 - i) as nat) + acc@,
        decreases 16 - i,
    {
        let digit = hex_digit_text(x % 16);
        let ghost before = acc@;
        proof {
            assert(hex_low(x as nat, (16 - i) as nat) == hex_low((x / 16) as nat, (16 - i - 1) as nat).push(
                hex_digit((x % 16) as int),
            ));
            assert(hex_low((x / 16) as nat, (16 - i - 1) as nat).push(hex_digit((x % 16) as int)) + before
                =~= hex_low((x / 16) as nat, (16 - i - 1) as nat) + (digit@ + before));
        }
        acc = String::from_str(digit).concat(acc.as_str());
        x = x / 16;
        i = i + 1;
    }
    assert(hex_low(x as nat, 0) =~= Seq::<char>::empty());
    assert(hex_text(d) =~= acc@);
    acc
}

} // verus!
