use lingo::digest::{checksum, checksum_text, hash_entry, FileEntry};

fn entry(path: &str, content: &str) -> FileEntry {
    FileEntry { path: path.as_bytes().to_vec(), content: content.as_bytes().to_vec() }
}

#[test]
fn entry_hash_is_fnv1a_of_path_zero_content() {
    assert_eq!(hash_entry(&entry("src/lib.lf", "hello")), 0xbab050ff69a6d173);
    assert_eq!(hash_entry(&entry("Lingo.toml", "[package]")), 0x37624c29fe59365e);
}

#[test]
fn tree_checksum_ignores_listing_order() {
    let a = vec![entry("src/lib.lf", "hello"), entry("Lingo.toml", "[package]")];
    let b = vec![entry("Lingo.toml", "[package]"), entry("src/lib.lf", "hello")];
    assert_eq!(checksum(&a), 0xf2129d29680007d1);
    assert_eq!(checksum(&a), checksum(&b));
}

#[test]
fn refetching_same_tree_gives_same_checksum() {
    let first = vec![entry("x/y.txt", "data")];
    let second = vec![entry("x/y.txt", "data")];
    assert_eq!(checksum(&first), checksum(&second));
    assert_ne!(checksum(&first), checksum(&vec![entry("x/y.txt", "other")]));
}

#[test]
fn path_separators_are_normalised() {
    assert_eq!(hash_entry(&entry("src\\lib.lf", "hello")), hash_entry(&entry("src/lib.lf", "hello")));
}

#[test]
fn empty_tree_has_zero_checksum() {
    assert_eq!(checksum(&vec![]), 0);
}

#[test]
fn checksum_text_is_sixteen_hex_digits() {
    let a = vec![entry("src/lib.lf", "hello"), entry("Lingo.toml", "[package]")];
    let b = vec![entry("Lingo.toml", "[package]"), entry("src/lib.lf", "hello")];
    assert_eq!(checksum_text(&a), "f2129d29680007d1");
    assert_eq!(checksum_text(&a), checksum_text(&b));
    assert_eq!(checksum_text(&vec![]), "0000000000000000");
}
