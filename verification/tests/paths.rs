use cpkg::paths::{join, name_of, stem};

#[test]
fn join_puts_one_separator_between() {
    assert_eq!(join("proj", "src"), "proj/src");
    assert_eq!(join("proj/", "src"), "proj/src");
    assert_eq!(join("", "src"), "src");
    assert_eq!(join("proj", "/abs"), "/abs");
}

#[test]
fn name_and_stem_of_a_path() {
    assert_eq!(name_of("src/tool.c"), Some("tool.c".to_string()));
    assert_eq!(stem("src/tool.c"), Some("tool".to_string()));
    assert_eq!(stem("src/.hidden"), Some(".hidden".to_string()));
    assert_eq!(stem("src/a.b.c"), Some("a.b".to_string()));
    assert_eq!(stem("src/"), Some("src".to_string()));
    assert_eq!(name_of("/work/proj//"), Some("proj".to_string()));
    assert_eq!(name_of("proj"), Some("proj".to_string()));
    assert_eq!(stem("src/.."), None);
    assert_eq!(stem("."), None);
    assert_eq!(stem("/"), None);
    assert_eq!(stem(""), None);
}

#[test]
fn what_stands_for_nothing_at_the_end_is_set_aside() {
    assert_eq!(name_of("foo.txt/."), Some("foo.txt".to_string()));
    assert_eq!(name_of("a/./"), Some("a".to_string()));
    assert_eq!(name_of("a/b/././/"), Some("b".to_string()));
    assert_eq!(stem("src/tool.c/."), Some("tool".to_string()));
    assert_eq!(name_of("a/b."), Some("b.".to_string()));
    assert_eq!(name_of("a/.b"), Some(".b".to_string()));
    assert_eq!(name_of("./."), None);
    assert_eq!(name_of("/."), None);
    assert_eq!(name_of("a/../."), None);
    assert_eq!(name_of("a/.."), None);
}
