use ugs_metadata::resolver::{normalize_user_name, DimensionTable};

#[test]
fn normalize_upper_cases() {
    assert_eq!(normalize_user_name("alice"), "ALICE");
    assert_eq!(normalize_user_name("Alice"), "ALICE");
    assert_eq!(normalize_user_name(""), "");
}

#[test]
fn normalize_twice_equals_once() {
    let once = normalize_user_name("Alice");
    assert_eq!(normalize_user_name(&once), once);
    let once = normalize_user_name("straße");
    assert_eq!(normalize_user_name(&once), once);
}

#[test]
fn resolve_empty_name_means_unset() {
    let mut users = DimensionTable::new();
    assert_eq!(users.find_or_add_user_id(""), None);
}

#[test]
fn resolve_converges_to_one_id() {
    let mut users = DimensionTable::new();
    let first = users.find_or_add_user_id("alice").unwrap();
    assert_eq!(users.find_or_add_user_id("alice"), Some(first));
    assert_eq!(users.find_or_add_user_id("ALICE"), Some(first));
    assert_eq!(users.find_or_add_user_id("Alice"), Some(first));
    assert!(first >= 1);
}

#[test]
fn resolve_distinct_names_get_distinct_ids() {
    let mut users = DimensionTable::new();
    let a = users.find_or_add_user_id("alice").unwrap();
    let b = users.find_or_add_user_id("bob").unwrap();
    assert_ne!(a, b);
    assert_eq!(users.find_or_add_user_id("alice"), Some(a));
    assert_eq!(users.find_or_add_user_id("bob"), Some(b));
}

#[test]
fn project_resolution_is_case_sensitive() {
    let mut projects = DimensionTable::new();
    let a = projects.try_insert_and_get_project("//Foo/Bar");
    let b = projects.try_insert_and_get_project("//foo/bar");
    assert_ne!(a, b);
    assert_eq!(projects.try_insert_and_get_project("//Foo/Bar"), a);
}
