use shell_core::text::{same_text, split_word, starts_with, strip_prefix, trim};

#[test]
fn starts_with_compares_characters() {
    assert!(starts_with("echo hi", "echo "));
    assert!(starts_with("echo", "echo"));
    assert!(starts_with("anything", ""));
    assert!(starts_with("", ""));
    assert!(!starts_with("ech", "echo"));
    assert!(!starts_with("", "a"));
    assert!(!starts_with("echx hi", "echo"));
    assert!(starts_with("\u{e9}t\u{e9}", "\u{e9}t"));
    assert!(!starts_with("\u{e9}t\u{e9}", "et"));
}

#[test]
fn same_text_is_equality() {
    assert!(same_text("exit", "exit"));
    assert!(same_text("", ""));
    assert!(!same_text("exit", "exit "));
    assert!(!same_text("exi", "exit"));
    assert!(!same_text("exit", "exiT"));
    assert!(same_text("\u{4e16}\u{754c}", "\u{4e16}\u{754c}"));
}

#[test]
fn strip_prefix_gives_the_rest() {
    assert_eq!(strip_prefix("echo hi there", "echo "), Some("hi there"));
    assert_eq!(strip_prefix("echo ", "echo "), Some(""));
    assert_eq!(strip_prefix("echo", "echo "), None);
    assert_eq!(strip_prefix("cd  x", "cd "), Some(" x"));
    assert_eq!(strip_prefix("\u{e9}\u{e9}x", "\u{e9}"), Some("\u{e9}x"));
    assert_eq!(strip_prefix("abc", ""), Some("abc"));
}

#[test]
fn trim_drops_whitespace_at_both_ends() {
    assert_eq!(trim("  a b  "), "a b");
    assert_eq!(trim("a b"), "a b");
    assert_eq!(trim("\t\na\r\n"), "a");
    assert_eq!(trim(""), "");
    assert_eq!(trim(" \t "), "");
    assert_eq!(trim("x "), "x");
    assert_eq!(trim(" x"), "x");
    assert_eq!(trim("\u{3000}\u{e9} \u{4e16}\u{a0}"), "\u{e9} \u{4e16}");
}

#[test]
fn trim_agrees_with_std() {
    for s in ["", " ", "a", " a", "a ", "  a  b  ", "\u{2003}x\u{2003}", "\n\n", " \u{e9} "] {
        assert_eq!(trim(s), s.trim());
    }
}

#[test]
fn split_word_cuts_before_the_first_whitespace() {
    assert_eq!(split_word("ls -l /tmp"), ("ls", " -l /tmp"));
    assert_eq!(split_word("ls"), ("ls", ""));
    assert_eq!(split_word(""), ("", ""));
    assert_eq!(split_word(" ls"), ("", " ls"));
    assert_eq!(split_word("a\tb"), ("a", "\tb"));
    assert_eq!(split_word("\u{e9}t\u{e9}\u{3000}x"), ("\u{e9}t\u{e9}", "\u{3000}x"));
}
