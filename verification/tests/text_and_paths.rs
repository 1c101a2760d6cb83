use knowledge_indexer::paths::{extension, file_name, join_path, parent};
use knowledge_indexer::text::{join_strings, replace_dots, str_eq, u64_text};

#[test]
fn decimal_rendering_of_numbers() {
    assert_eq!(u64_text(0), "0");
    assert_eq!(u64_text(7), "7");
    assert_eq!(u64_text(1234), "1234");
    assert_eq!(u64_text(u64::MAX), "18446744073709551615");
}

#[test]
fn string_equality_by_characters() {
    assert!(str_eq("abc", "abc"));
    assert!(!str_eq("abc", "abd"));
    assert!(!str_eq("abc", "ab"));
    assert!(str_eq("", ""));
}

#[test]
fn dots_become_hashes() {
    assert_eq!(replace_dots("a.b.c"), "a#b#c");
    assert_eq!(replace_dots("plain"), "plain");
    assert_eq!(replace_dots(".."), "##");
}

#[test]
fn joining_strings_with_a_separator() {
    let parts = vec!["a".to_string(), "b".to_string(), "c".to_string()];
    assert_eq!(join_strings(&parts, ", "), "a, b, c");
    assert_eq!(join_strings(&Vec::new(), ", "), "");
    assert_eq!(join_strings(&vec!["x".to_string()], "::"), "x");
}

#[test]
fn file_names_and_extensions() {
    assert_eq!(file_name("src/main.rs"), Some("main.rs".to_string()));
    assert_eq!(extension("src/main.rs"), Some("rs".to_string()));
    assert_eq!(extension("archive.tar.gz"), Some("gz".to_string()));
    assert_eq!(extension(".bashrc"), None);
    assert_eq!(extension("Makefile"), None);
    assert_eq!(extension("foo."), Some("".to_string()));
    assert_eq!(file_name("a/b/"), Some("b".to_string()));
    assert_eq!(file_name("a/.."), None);
    assert_eq!(file_name("/"), None);
}

#[test]
fn parents_as_path_parent_finds_them() {
    assert_eq!(parent("a/b/c.py"), Some("a/b".to_string()));
    assert_eq!(parent("c.py"), Some("".to_string()));
    assert_eq!(parent("/"), None);
    assert_eq!(parent(""), None);
    assert_eq!(parent("/a"), Some("/".to_string()));
    assert_eq!(parent("a/b/"), Some("a".to_string()));
    assert_eq!(parent("a//b"), Some("a".to_string()));
    assert_eq!(parent("./a"), Some(".".to_string()));
    for p in ["a/b/c.py", "c.py", "/", "", "/a", "a/b/", "a//b", "./a", "a/./b", "a/."] {
        let expected = std::path::Path::new(p).parent().map(|q| q.to_string_lossy().to_string());
        assert_eq!(parent(p), expected, "parent of {p:?}");
    }
}

#[test]
fn joined_path_has_its_directory_as_parent() {
    let joined = join_path("repo/src", "lib.rs");
    assert_eq!(joined, "repo/src/lib.rs");
    assert_eq!(parent(&joined), Some("repo/src".to_string()));
    assert_eq!(join_path("repo/", "x"), "repo/x");
    assert_eq!(join_path("", "x"), "x");
}
