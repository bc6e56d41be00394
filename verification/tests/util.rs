use appimagezip::util::RecursiveDirIterator;

/// Walks a tree given as the names that each directory holds; a name that
/// ends in `/` is a directory, listed under its full path.
fn walk(tree: &[(&str, Vec<&str>)]) -> Vec<String> {
    let listing = |dir: &str| -> Vec<String> {
        let names = tree.iter().find(|(path, _)| *path == dir).map(|(_, names)| names.clone());
        names.unwrap_or_default().into_iter().map(|name| format!("{}{}", dir, name)).collect()
    };
    let mut seen = Vec::new();
    let mut walk = RecursiveDirIterator::new(listing("").into_iter());
    while let Some(mut reader) = walk.take_reader() {
        if let Some(item) = reader.next() {
            let entered = if item.ends_with('/') { Some(listing(&item).into_iter()) } else { None };
            walk.resume(reader, entered);
            seen.push(item);
        }
    }
    seen
}

#[test]
fn walk_of_an_empty_directory_yields_nothing() {
    assert_eq!(walk(&[("", vec![])]), Vec::<String>::new());
}

#[test]
fn walk_of_a_flat_directory_keeps_its_order() {
    assert_eq!(walk(&[("", vec!["a", "b", "c"])]), vec!["a", "b", "c"]);
}

#[test]
fn walk_goes_into_a_directory_before_its_siblings() {
    let tree = [
        ("", vec!["a", "d/", "z"]),
        ("d/", vec!["x", "e/", "y"]),
        ("d/e/", vec!["deep"]),
    ];
    assert_eq!(walk(&tree), vec!["a", "d/", "d/x", "d/e/", "d/e/deep", "d/y", "z"]);
}

#[test]
fn walk_ends_when_no_reader_is_left() {
    let mut walk = RecursiveDirIterator::new(0u32);
    assert_eq!(walk.take_reader(), Some(0));
    assert_eq!(walk.take_reader(), None);
    assert_eq!(walk.take_reader(), None);
}

#[test]
fn innermost_reader_has_the_turn() {
    let mut walk = RecursiveDirIterator::new(1u32);
    let outer = walk.take_reader().unwrap();
    walk.resume(outer, Some(2));
    assert_eq!(walk.take_reader(), Some(2));
    walk.resume(2, None);
    assert_eq!(walk.take_reader(), Some(2));
    assert_eq!(walk.take_reader(), Some(1));
    assert_eq!(walk.take_reader(), None);
}
