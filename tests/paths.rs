use gsb::paths::{expand_tilde, expand_tilde_with, join_path};

#[test]
fn join_inserts_one_separator() {
    assert_eq!(join_path("/repo", "a.txt"), "/repo/a.txt");
    assert_eq!(join_path("/repo/", "a.txt"), "/repo/a.txt");
    assert_eq!(join_path("", "a.txt"), "a.txt");
}

#[test]
fn join_absolute_replaces_base() {
    assert_eq!(join_path("/repo", "/etc/x"), "/etc/x");
}

#[test]
fn tilde_expands_to_home() {
    let home = Some("/home/me".to_string());
    assert_eq!(
        expand_tilde_with("~/notes/a.md".to_string(), home.clone()),
        "/home/me/notes/a.md"
    );
    assert_eq!(expand_tilde_with("~".to_string(), home.clone()), "/home/me/");
}

#[test]
fn tilde_kept_without_home_or_marker() {
    assert_eq!(expand_tilde_with("~/a".to_string(), None), "~/a");
    let home = Some("/home/me".to_string());
    assert_eq!(expand_tilde_with("/abs/a".to_string(), home.clone()), "/abs/a");
    assert_eq!(expand_tilde_with("~user/a".to_string(), home), "~user/a");
}

#[test]
fn expand_tilde_leaves_plain_paths() {
    assert_eq!(expand_tilde("/work/a.txt".to_string()), "/work/a.txt");
}

#[test]
fn separators_after_tilde_are_dropped() {
    let home = Some("/h".to_string());
    assert_eq!(expand_tilde_with("~//a".to_string(), home.clone()), "/h/a");
    assert_eq!(expand_tilde_with("~///".to_string(), home.clone()), "/h/");
    assert_eq!(expand_tilde_with("~/".to_string(), home), "/h/");
}
