use shell_core::builtins::{builtin_of, Builtin};
use shell_core::numbers::{exit_code_of, parse_i32};
use shell_core::path_search::{candidates, join_candidate, split_path};
use shell_core::text::{parse_line, str_eq, trim_of};

#[test]
fn trim_removes_outer_whitespace() {
    assert_eq!(trim_of("  x  "), "x");
    assert_eq!(trim_of("\t a b \n"), "a b");
    assert_eq!(trim_of(""), "");
    assert_eq!(trim_of("   \t\n"), "");
    assert_eq!(trim_of("plain"), "plain");
}

#[test]
fn str_eq_is_exact() {
    assert!(str_eq("abc", "abc"));
    assert!(!str_eq("abc", "abd"));
    assert!(!str_eq("abc", "abcd"));
    assert!(str_eq("", ""));
}

#[test]
fn parse_line_splits_at_first_whitespace_run() {
    let (cmd, args) = parse_line("echo hello world");
    assert_eq!(cmd, "echo");
    assert_eq!(args, "hello world");
}

#[test]
fn parse_line_trims_and_skips_run() {
    let (cmd, args) = parse_line("  echo   hello world  \n");
    assert_eq!(cmd, "echo");
    assert_eq!(args, "hello world");
}

#[test]
fn parse_line_without_whitespace_has_empty_args() {
    let (cmd, args) = parse_line("pwd\n");
    assert_eq!(cmd, "pwd");
    assert_eq!(args, "");
}

#[test]
fn parse_line_empty_input_gives_empty_command() {
    let (cmd, args) = parse_line("   \n");
    assert_eq!(cmd, "");
    assert_eq!(args, "");
}

#[test]
fn parse_i32_reads_decimal() {
    assert_eq!(parse_i32("42"), Some(42));
    assert_eq!(parse_i32("+7"), Some(7));
    assert_eq!(parse_i32("-5"), Some(-5));
    assert_eq!(parse_i32("0"), Some(0));
}

#[test]
fn parse_i32_rejects_junk() {
    assert_eq!(parse_i32(""), None);
    assert_eq!(parse_i32("abc"), None);
    assert_eq!(parse_i32("4 2"), None);
    assert_eq!(parse_i32("-"), None);
    assert_eq!(parse_i32("+"), None);
    assert_eq!(parse_i32("12x"), None);
}

#[test]
fn parse_i32_honours_the_i32_range() {
    assert_eq!(parse_i32("2147483647"), Some(i32::MAX));
    assert_eq!(parse_i32("2147483648"), None);
    assert_eq!(parse_i32("-2147483648"), Some(i32::MIN));
    assert_eq!(parse_i32("-2147483649"), None);
    assert_eq!(parse_i32("99999999999999999999"), None);
}

#[test]
fn exit_code_takes_first_token_with_default_one() {
    assert_eq!(exit_code_of("42"), 42);
    assert_eq!(exit_code_of("  42  "), 42);
    assert_eq!(exit_code_of("42 99"), 42);
    assert_eq!(exit_code_of("abc"), 1);
    assert_eq!(exit_code_of(""), 1);
}

#[test]
fn split_path_keeps_order_and_empty_entries() {
    assert_eq!(split_path("/a:/b"), vec!["/a".to_string(), "/b".to_string()]);
    assert_eq!(split_path("/a"), vec!["/a".to_string()]);
    assert_eq!(split_path(""), vec!["".to_string()]);
    assert_eq!(
        split_path("::"),
        vec!["".to_string(), "".to_string(), "".to_string()]
    );
}

#[test]
fn join_candidate_inserts_one_separator() {
    assert_eq!(join_candidate("/usr/bin", "ls"), "/usr/bin/ls");
    assert_eq!(join_candidate("/usr/bin/", "ls"), "/usr/bin/ls");
    assert_eq!(join_candidate("", "ls"), "ls");
    assert_eq!(join_candidate("/usr/bin", "/abs/ls"), "/abs/ls");
}

#[test]
fn candidates_follow_path_order() {
    assert_eq!(
        candidates("/a:/b", "ls"),
        vec!["/a/ls".to_string(), "/b/ls".to_string()]
    );
}

#[test]
fn candidates_skip_empty_entries() {
    assert_eq!(
        candidates("/a::/b", "ls"),
        vec!["/a/ls".to_string(), "/b/ls".to_string()]
    );
    assert_eq!(candidates(":", "ls"), Vec::<String>::new());
    assert_eq!(candidates("", "ls"), Vec::<String>::new());
}

#[test]
fn whitespace_includes_unicode_blanks() {
    assert_eq!(trim_of("\u{2003} x \u{a0}"), "x");
    let (cmd, args) = parse_line("echo\u{a0}hello world");
    assert_eq!(cmd, "echo");
    assert_eq!(args, "hello world");
}

#[test]
fn builtin_lookup_is_exact_and_case_sensitive() {
    assert_eq!(builtin_of("exit"), Some(Builtin::Exit));
    assert_eq!(builtin_of("echo"), Some(Builtin::Echo));
    assert_eq!(builtin_of("pwd"), Some(Builtin::Pwd));
    assert_eq!(builtin_of("cd"), Some(Builtin::Cd));
    assert_eq!(builtin_of("type"), Some(Builtin::Type));
    assert_eq!(builtin_of("Echo"), None);
    assert_eq!(builtin_of("ech"), None);
    assert_eq!(builtin_of(""), None);
}
