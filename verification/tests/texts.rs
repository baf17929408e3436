use aquadoggo_cli::text::{contains, decimal_text, join, same};

#[test]
fn part_is_found_anywhere() {
    assert!(contains("mode=memory", "mode=memory"));
    assert!(contains("a?mode=memory&b", "mode=memory"));
    assert!(contains("aab", "ab"));
    assert!(contains("über", "ü"));
    assert!(contains("", ""));
    assert!(contains("abc", ""));
}

#[test]
fn missing_part_is_not_found() {
    assert!(!contains("", "a"));
    assert!(!contains("mode=memor", "mode=memory"));
    assert!(!contains("mode=MEMORY", "mode=memory"));
    assert!(!contains("m-ode=memory", "mode=memory"));
}

#[test]
fn same_compares_whole_texts() {
    assert!(same("sqlite::memory:", "sqlite::memory:"));
    assert!(!same("sqlite::memory", "sqlite::memory:"));
    assert!(same("", ""));
}

#[test]
fn numbers_are_written_in_decimal() {
    assert_eq!(decimal_text(0), "0");
    assert_eq!(decimal_text(9), "9");
    assert_eq!(decimal_text(10), "10");
    assert_eq!(decimal_text(1907), "1907");
    assert_eq!(decimal_text(u32::MAX), "4294967295");
}

#[test]
fn lines_are_joined() {
    let lines = vec!["a".to_string(), "".to_string(), "c".to_string()];
    assert_eq!(join(&lines, "\n"), "a\n\nc");
    assert_eq!(join(&vec!["a".to_string()], "\n"), "a");
    assert_eq!(join(&Vec::new(), "\n"), "");
}
