use mdbook_minijinja::paths::is_absolute_path;
use mdbook_minijinja::paths::join_path;
use mdbook_minijinja::paths::parent_of;
use mdbook_minijinja::paths::resolve_to_root;
use mdbook_minijinja::strings::str_eq;

#[test]
fn join_plain_components() {
    assert_eq!(join_path("a", "b"), "a/b".to_string());
    assert_eq!(join_path("/proj/src", "guide"), "/proj/src/guide".to_string());
}

#[test]
fn join_keeps_single_separator() {
    assert_eq!(join_path("a/", "b"), "a/b".to_string());
}

#[test]
fn join_empty_base_gives_relative_path() {
    assert_eq!(join_path("", "b"), "b".to_string());
}

#[test]
fn join_absolute_right_side_replaces_base() {
    assert_eq!(join_path("a", "/x"), "/x".to_string());
    assert_eq!(join_path("/proj", "/etc/passwd"), "/etc/passwd".to_string());
}

#[test]
fn join_empty_relative_side_adds_separator() {
    assert_eq!(join_path("a", ""), "a/".to_string());
}

#[test]
fn parent_of_nested_path() {
    assert_eq!(parent_of("guide/intro.md"), Some("guide".to_string()));
    assert_eq!(parent_of("a/b/c"), Some("a/b".to_string()));
}

#[test]
fn parent_of_single_component_is_empty() {
    assert_eq!(parent_of("intro.md"), Some("".to_string()));
}

#[test]
fn parent_of_empty_and_root_is_absent() {
    assert_eq!(parent_of(""), None);
    assert_eq!(parent_of("/"), None);
}

#[test]
fn parent_of_top_level_absolute_is_root() {
    assert_eq!(parent_of("/a"), Some("/".to_string()));
    assert_eq!(parent_of("/a/b"), Some("/a".to_string()));
}

#[test]
fn parent_of_ignores_trailing_separators() {
    assert_eq!(parent_of("a/b/"), Some("a".to_string()));
}

#[test]
fn resolve_to_root_joins_relative() {
    assert_eq!(resolve_to_root("templates", "/proj"), "/proj/templates".to_string());
}

#[test]
fn resolve_to_root_keeps_absolute() {
    assert_eq!(resolve_to_root("/abs/templates", "/proj"), "/abs/templates".to_string());
}

#[test]
fn absolute_path_detection() {
    assert!(is_absolute_path("/proj"));
    assert!(!is_absolute_path("proj"));
    assert!(!is_absolute_path(""));
}

#[test]
fn string_equality_by_characters() {
    assert!(str_eq("abc", "abc"));
    assert!(!str_eq("abc", "abd"));
    assert!(!str_eq("abc", "ab"));
    assert!(str_eq("", ""));
}
