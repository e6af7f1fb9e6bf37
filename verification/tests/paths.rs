use russh::paths::path_from_string;

#[test]
fn join_with_no_base_returns_child() {
    let child = String::from("work/notes.txt");
    assert_eq!(path_from_string(None, &child), "work/notes.txt");
}

#[test]
fn join_relative_child_onto_base() {
    let base = String::from("/tmp");
    let child = String::from("notes.txt");
    assert_eq!(path_from_string(Some(&base), &child), "/tmp/notes.txt");
}

#[test]
fn join_keeps_single_separator_after_base() {
    let base = String::from("/tmp/");
    let child = String::from("notes.txt");
    assert_eq!(path_from_string(Some(&base), &child), "/tmp/notes.txt");
}

#[test]
fn join_absolute_child_replaces_base() {
    let base = String::from("/tmp");
    let child = String::from("/etc/hosts");
    assert_eq!(path_from_string(Some(&base), &child), "/etc/hosts");
}

#[test]
fn join_empty_base_returns_child() {
    let base = String::from("");
    let child = String::from("notes.txt");
    assert_eq!(path_from_string(Some(&base), &child), "notes.txt");
}

#[test]
fn join_empty_child_keeps_trailing_separator() {
    let base = String::from("/tmp");
    let child = String::from("");
    assert_eq!(path_from_string(Some(&base), &child), "/tmp/");
}

#[test]
fn join_does_not_normalize_dots() {
    let base = String::from("/tmp");
    let child = String::from("../up.txt");
    assert_eq!(path_from_string(Some(&base), &child), "/tmp/../up.txt");
}
