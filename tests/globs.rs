use cargo_mutants_core::options::{build_glob_set, build_glob_set_with};

#[test]
fn no_patterns_no_set() {
    assert!(build_glob_set(&Vec::new()).unwrap().is_none());
}

#[test]
fn bare_names_match_in_any_directory() {
    let set = build_glob_set(&vec!["lib.rs".to_owned()]).unwrap().unwrap();
    assert_eq!(set.len(), 1);
    assert!(set.is_match("lib.rs"));
    assert!(set.is_match("src/deep/lib.rs"));
}

#[test]
fn patterns_with_separator_are_kept() {
    let set = build_glob_set(&vec!["src/*.rs".to_owned(), "main.rs".to_owned()])
        .unwrap()
        .unwrap();
    assert_eq!(set.len(), 2);
    assert!(set.is_match("src/a.rs"));
    assert!(set.is_match("x/main.rs"));
    assert!(!set.is_match("other/src/a.txt"));
}

#[test]
fn other_separator_counts_as_a_directory() {
    let set = build_glob_set_with(&vec!["lib.rs".to_owned()], '\\').unwrap().unwrap();
    assert!(set.is_match("a/lib.rs"));
    let set = build_glob_set_with(&vec!["a\\lib.rs".to_owned()], '\\').unwrap().unwrap();
    assert!(!set.is_match("b/lib.rs"));
}

#[test]
fn invalid_pattern_is_an_error() {
    assert!(build_glob_set(&vec!["ok.rs".to_owned(), "a[".to_owned()]).is_err());
}

#[test]
fn backslash_escapes_only_where_it_is_no_separator() {
    assert!(build_glob_set_with(&vec!["a\\".to_owned()], '/').is_err());
    let set = build_glob_set_with(&vec!["a\\".to_owned()], '\\').unwrap().unwrap();
    assert_eq!(set.len(), 1);
}
