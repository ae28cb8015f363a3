use zelix::errors::PathError;
use zelix::paths::{file_name, namespace_path, relative_path, split_string};

#[test]
fn relative_path_strips_the_root() {
    let r = relative_path("/home/user/proj/src/main.rs", "/home/user/proj").unwrap();
    assert_eq!(r, "src/main.rs");
}

#[test]
fn relative_path_of_root_itself_is_empty() {
    let r = relative_path("/home/user/proj", "/home/user/proj").unwrap();
    assert_eq!(r, "");
}

#[test]
fn relative_path_fails_outside_the_root() {
    let r = relative_path("/home/other/file.rs", "/home/user/proj");
    assert_eq!(r.unwrap_err(), PathError::NotUnderRoot);
}

#[test]
fn relative_path_fails_on_partial_segment_match() {
    // "/home/use" is not a component-wise prefix of "/home/user/x".
    let r = relative_path("/home/user/x", "/home/use");
    assert_eq!(r.unwrap_err(), PathError::NotUnderRoot);
}

#[test]
fn relative_path_collapses_repeated_separators() {
    let r = relative_path("p//a///b.rs", "p").unwrap();
    assert_eq!(r, "a/b.rs");
}

#[test]
fn relative_path_accepts_trailing_slash_on_root() {
    let r = relative_path("/p/a.rs", "/p/").unwrap();
    assert_eq!(r, "a.rs");
}

#[test]
fn namespace_of_nested_file() {
    let ns = namespace_path("/root/a/b/Foo.cs", "/root").unwrap();
    assert_eq!(ns, "a.b.Foo");
}

#[test]
fn namespace_fails_when_not_under_root() {
    let ns = namespace_path("/elsewhere/a/Foo.cs", "/root");
    assert_eq!(ns.unwrap_err(), PathError::NotUnderRoot);
}

#[test]
fn namespace_fails_on_empty_remainder() {
    let ns = namespace_path("/root", "/root");
    assert_eq!(ns.unwrap_err(), PathError::EmptyRelativePath);
}

#[test]
fn namespace_fails_on_parent_segment() {
    // One `..` segment after the root fails the whole computation; it is
    // never silently skipped.
    let ns = namespace_path("/root/a/../Foo.cs", "/root");
    assert_eq!(ns.unwrap_err(), PathError::NonTextComponent);
}

#[test]
fn namespace_keeps_other_extensions() {
    let ns = namespace_path("/root/a/Foo.txt", "/root").unwrap();
    assert_eq!(ns, "a.Foo.txt");
}

#[test]
fn namespace_of_single_component() {
    let ns = namespace_path("r/Foo.cs", "r").unwrap();
    assert_eq!(ns, "Foo");
}

#[test]
fn file_name_of_plain_path() {
    assert_eq!(file_name("a/b/c.rs").unwrap(), "c.rs");
}

#[test]
fn file_name_of_parent_path_is_unknown() {
    assert!(file_name("a/b/..").is_none());
}

#[test]
fn split_keeps_empty_segments() {
    let segs = split_string("a//b", '/');
    assert_eq!(segs, vec!["a".to_string(), "".to_string(), "b".to_string()]);
}

#[test]
fn split_of_empty_string_is_one_empty_segment() {
    let segs = split_string("", '/');
    assert_eq!(segs, vec!["".to_string()]);
}
