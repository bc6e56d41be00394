use appimagezip::path::{
    copy_of, ends_with_separator, join, name, normalize, parent, same_path, SEPARATOR,
};

#[test]
fn separator_is_a_slash() {
    assert_eq!(SEPARATOR, b'/');
}

#[test]
fn normalize_drops_empty_components() {
    assert_eq!(normalize(b"dir/"), b"dir".to_vec());
    assert_eq!(normalize(b"a//"), b"a".to_vec());
    assert_eq!(normalize(b"/"), b"".to_vec());
    assert_eq!(normalize(b"///"), b"".to_vec());
    assert_eq!(normalize(b""), b"".to_vec());
    assert_eq!(normalize(b"a/b"), b"a/b".to_vec());
    assert_eq!(normalize(b"dir//b"), b"dir/b".to_vec());
    assert_eq!(normalize(b"/a//b/"), b"a/b".to_vec());
    assert_eq!(normalize(b"//a///b//c.txt//"), b"a/b/c.txt".to_vec());
    assert_eq!(normalize(b"a/./b"), b"a/./b".to_vec());
}

#[test]
fn normalize_leaves_a_canonical_path_alone() {
    assert_eq!(normalize(b"usr/share/doc"), b"usr/share/doc".to_vec());
    let once = normalize(b"/x//y/");
    assert_eq!(normalize(&once), once);
}

#[test]
fn parent_is_what_stands_before_the_last_separator() {
    assert_eq!(parent(b"a/b/c"), b"a/b".to_vec());
    assert_eq!(parent(b"dir/b.txt"), b"dir".to_vec());
    assert_eq!(parent(b"a"), b"".to_vec());
    assert_eq!(parent(b""), b"".to_vec());
    assert_eq!(parent(b"a//b"), b"a".to_vec());
    assert_eq!(parent(b"/abs"), b"".to_vec());
}

#[test]
fn name_is_what_stands_after_the_last_separator() {
    assert_eq!(name(b"a/b/c.txt"), b"c.txt".to_vec());
    assert_eq!(name(b"a"), b"a".to_vec());
    assert_eq!(name(b""), b"".to_vec());
    assert_eq!(name(b"a/"), b"".to_vec());
}

#[test]
fn join_puts_one_separator_between() {
    assert_eq!(join(b"", b"a.txt"), b"a.txt".to_vec());
    assert_eq!(join(b"dir", b"b.txt"), b"dir/b.txt".to_vec());
    assert_eq!(join(b"dir", b"sub/"), b"dir/sub".to_vec());
    assert_eq!(join(b"dir", b""), b"dir".to_vec());
    assert_eq!(join(b"", b""), b"".to_vec());
    assert_eq!(join(b"dir/", b"/b"), b"dir/b".to_vec());
    assert_eq!(join(b"a//b", b"c"), b"a/b/c".to_vec());
}

#[test]
fn join_then_split_gives_both_back() {
    let whole = join(b"a/b", b"c");
    assert_eq!(parent(&whole), b"a/b".to_vec());
    assert_eq!(name(&whole), b"c".to_vec());
    let top = join(b"", b"c");
    assert_eq!(parent(&top), b"".to_vec());
    assert_eq!(name(&top), b"c".to_vec());
}

#[test]
fn same_path_compares_bytes() {
    assert!(same_path(b"a/b", b"a/b"));
    assert!(same_path(b"", b""));
    assert!(!same_path(b"a/b", b"a/c"));
    assert!(!same_path(b"a/b", b"a/b/"));
    assert!(!same_path(b"a", b""));
}

#[test]
fn trailing_separator_is_seen() {
    assert!(ends_with_separator(b"dir/"));
    assert!(ends_with_separator(b"/"));
    assert!(!ends_with_separator(b"dir"));
    assert!(!ends_with_separator(b""));
    assert!(!ends_with_separator(b"a/b"));
}

#[test]
fn copy_is_equal() {
    assert_eq!(copy_of(b"some/path"), b"some/path".to_vec());
    assert_eq!(copy_of(b""), Vec::<u8>::new());
}
