use http_server::order::sort_names;
use http_server::order::str_le;

#[test]
fn compares_names_lexicographically() {
    assert!(str_le("abc", "abd"));
    assert!(!str_le("abd", "abc"));
    assert!(str_le("ab", "abc"));
    assert!(!str_le("abc", "ab"));
    assert!(str_le("abc", "abc"));
    assert!(str_le("", "a"));
}

#[test]
fn comparison_is_case_sensitive() {
    assert!(str_le("B.txt", "a.txt"));
    assert!(!str_le("a.txt", "B.txt"));
}

#[test]
fn sorts_names_lexicographically() {
    let names = vec![
        "b.txt".to_string(),
        "A.txt".to_string(),
        "sub/".to_string(),
        "a.txt".to_string(),
    ];
    let sorted = sort_names(names);
    let expected = vec![
        "A.txt".to_string(),
        "a.txt".to_string(),
        "b.txt".to_string(),
        "sub/".to_string(),
    ];
    assert_eq!(sorted, expected);
}

#[test]
fn sorting_keeps_duplicates() {
    let names = vec!["x".to_string(), "x".to_string(), "a".to_string()];
    let sorted = sort_names(names);
    let expected = vec!["a".to_string(), "x".to_string(), "x".to_string()];
    assert_eq!(sorted, expected);
}
