use ugs_metadata::project::{get_project_like_string, get_project_stream, matches_wildcard};

#[test]
fn stream_of_deep_path() {
    assert_eq!(get_project_stream("//Foo/Bar/Baz/Qux"), "//Foo/Bar");
}

#[test]
fn stream_of_non_path_is_unchanged() {
    assert_eq!(get_project_stream("not-a-path"), "not-a-path");
}

#[test]
fn stream_of_two_segment_path() {
    assert_eq!(get_project_stream("//Foo/Bar"), "//Foo/Bar");
}

#[test]
fn stream_of_segment_charset() {
    assert_eq!(get_project_stream("//UE5/Main-Stream_1.0/Sub"), "//UE5/Main-Stream_1.0");
}

#[test]
fn stream_of_incomplete_paths_unchanged() {
    assert_eq!(get_project_stream(""), "");
    assert_eq!(get_project_stream("//"), "//");
    assert_eq!(get_project_stream("//Foo"), "//Foo");
    assert_eq!(get_project_stream("//Foo/"), "//Foo/");
    assert_eq!(get_project_stream("///Bar"), "///Bar");
}

#[test]
fn wildcard_matches_prefix() {
    assert!(matches_wildcard("//Foo/Bar/...", "//Foo/Bar/Baz"));
}

#[test]
fn wildcard_rejects_other_prefix() {
    assert!(!matches_wildcard("//Foo/Bar/...", "//Foo/Other"));
}

#[test]
fn wildcard_needs_separator_and_marker() {
    assert!(!matches_wildcard("//Foo/Bar", "//Foo/Bar"));
    assert!(!matches_wildcard("...", "anything"));
    assert!(!matches_wildcard("//Foo/Bar....", "//Foo/Bar"));
}

#[test]
fn wildcard_matches_own_stem() {
    assert!(matches_wildcard("//Foo/Bar/...", "//Foo/Bar"));
}

#[test]
fn like_string_wraps_stream() {
    assert_eq!(get_project_like_string(None), "%%");
    assert_eq!(get_project_like_string(Some("//Foo/Bar/Baz")), "%//Foo/Bar%");
    assert_eq!(get_project_like_string(Some("plain")), "%plain%");
}
