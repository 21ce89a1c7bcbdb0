use echo::paths::join_path;

#[test]
fn join_inserts_separator() {
    assert_eq!(join_path("/home/ann", "notes"), "/home/ann/notes");
}

#[test]
fn join_keeps_existing_separator() {
    assert_eq!(join_path("/home/ann/", "notes"), "/home/ann/notes");
}

#[test]
fn join_onto_empty_base() {
    assert_eq!(join_path("", "notes"), "notes");
}

#[test]
fn join_absolute_component_replaces() {
    assert_eq!(join_path("/home/ann", "/etc/passwd"), "/etc/passwd");
}

#[test]
fn join_onto_root() {
    assert_eq!(join_path("/", ".meeting_assistant"), "/.meeting_assistant");
}
