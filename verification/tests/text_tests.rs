use todo_cli::handler::parse_i64;
use todo_cli::text::clean_input;
use todo_cli::text::confirmation_proceeds;
use todo_cli::text::ends_with;
use todo_cli::text::str_eq;
use todo_cli::text::strip_suffix;
use todo_cli::text::trim;

#[test]
fn clean_input_strips_newline() {
    let mut s = "hello\n".to_string();
    clean_input(&mut s);
    assert_eq!(s, "hello");
}

#[test]
fn clean_input_strips_crlf() {
    let mut s = "hello\r\n".to_string();
    clean_input(&mut s);
    assert_eq!(s, "hello");
}

#[test]
fn clean_input_leaves_plain_text() {
    let mut s = "hello".to_string();
    clean_input(&mut s);
    assert_eq!(s, "hello");
}

#[test]
fn clean_input_on_bare_newline() {
    let mut s = "\n".to_string();
    clean_input(&mut s);
    assert_eq!(s, "");
}

#[test]
fn trim_removes_surrounding_whitespace() {
    assert_eq!(trim("  a b\t "), "a b");
    assert_eq!(trim("none"), "none");
    assert_eq!(trim("   "), "");
    assert_eq!(trim(""), "");
}

#[test]
fn str_eq_compares_characters() {
    assert!(str_eq("abc", "abc"));
    assert!(!str_eq("abc", "abd"));
    assert!(!str_eq("abc", "ab"));
    assert!(str_eq("", ""));
}

#[test]
fn ends_with_checks_suffix() {
    assert!(ends_with("todo.store", ".store"));
    assert!(!ends_with("todo", ".store"));
    assert!(!ends_with("re", "store"));
    assert!(ends_with("anything", ""));
}

#[test]
fn strip_suffix_removes_one_trailing_occurrence() {
    assert_eq!(strip_suffix("todo.store", ".store"), "todo");
    assert_eq!(strip_suffix("todo", ".store"), "todo");
    assert_eq!(strip_suffix("a.store.store", ".store"), "a.store");
}

#[test]
fn parse_i64_reads_plain_numbers() {
    assert_eq!(parse_i64("42"), Some(42));
    assert_eq!(parse_i64("0"), Some(0));
    assert_eq!(parse_i64("-7"), Some(-7));
    assert_eq!(parse_i64("+5"), Some(5));
}

#[test]
fn parse_i64_rejects_bad_input() {
    assert_eq!(parse_i64(""), None);
    assert_eq!(parse_i64("abc"), None);
    assert_eq!(parse_i64("12x"), None);
    assert_eq!(parse_i64("-"), None);
    assert_eq!(parse_i64("+"), None);
    assert_eq!(parse_i64("--1"), None);
    assert_eq!(parse_i64("1 2"), None);
}

#[test]
fn parse_i64_handles_the_type_bounds() {
    assert_eq!(parse_i64("9223372036854775807"), Some(i64::MAX));
    assert_eq!(parse_i64("-9223372036854775808"), Some(i64::MIN));
    assert_eq!(parse_i64("9223372036854775808"), None);
    assert_eq!(parse_i64("-9223372036854775809"), None);
    assert_eq!(parse_i64("99999999999999999999999999"), None);
}

#[test]
fn confirmation_proceeds_unless_reply_starts_with_n() {
    assert!(confirmation_proceeds(""));
    assert!(confirmation_proceeds("yes"));
    assert!(confirmation_proceeds("ok"));
    assert!(!confirmation_proceeds("N"));
    assert!(!confirmation_proceeds("n"));
    assert!(!confirmation_proceeds("no"));
}
