use kty::number::{fmt_i64, fmt_u64, parse_u16, parse_u32, parse_u64};
use kty::text::{
    contains_str, fields_str, find_first, find_last, join_strings, same_text, split_str,
    splitn_chars, to_chars, to_lowercase, trim_str,
};

#[test]
fn split_keeps_empty_pieces() {
    assert_eq!(split_str("a//b/", '/'), vec!["a", "", "b", ""]);
    assert_eq!(split_str("", '/'), vec![""]);
}

#[test]
fn split_then_join_gives_back_the_text() {
    for s in ["pods/default/nginx", "", "/", "a//b", "no-separator"] {
        let parts = split_str(s, '/');
        assert_eq!(join_strings(&parts, "/"), s);
    }
}

#[test]
fn splitn_keeps_the_rest_in_the_last_piece() {
    let v = to_chars("a:b:c:d");
    assert_eq!(splitn_chars(&v, 2, ':'), vec!["a", "b:c:d"]);
    assert_eq!(splitn_chars(&v, 1, ':'), vec!["a:b:c:d"]);
    assert_eq!(splitn_chars(&v, 8, ':'), vec!["a", "b", "c", "d"]);
}

#[test]
fn fields_skip_runs_of_whitespace() {
    assert_eq!(fields_str("  drwxr-xr-x   2 root  root "), vec!["drwxr-xr-x", "2", "root", "root"]);
    assert!(fields_str("   ").is_empty());
}

#[test]
fn trim_removes_unicode_whitespace() {
    assert_eq!(trim_str("  \t hello world \n"), "hello world");
    assert_eq!(trim_str("\u{3000}x\u{a0}"), "x");
    assert_eq!(trim_str("   "), "");
}

#[test]
fn searching_and_comparing() {
    let v = to_chars("a/b/c");
    assert_eq!(find_first(&v, '/'), Some(1));
    assert_eq!(find_last(&v, '/'), Some(3));
    assert_eq!(find_first(&v, ':'), None);
    assert!(contains_str("nginx-deployment", "deploy"));
    assert!(contains_str("anything", ""));
    assert!(!contains_str("nginx", "apache"));
    assert!(same_text("abc", "abc"));
    assert!(!same_text("abc", "abd"));
    assert_eq!(kty::text::concat("ab", "cd"), "abcd");
    assert_eq!(to_lowercase("MiXeD-42"), "mixed-42");
}

#[test]
fn numbers_format_in_decimal() {
    assert_eq!(fmt_u64(0), "0");
    assert_eq!(fmt_u64(18446744073709551615), "18446744073709551615");
    assert_eq!(fmt_i64(-42), "-42");
    assert_eq!(fmt_i64(i64::MIN), "-9223372036854775808");
}

#[test]
fn numbers_parse_like_str_parse() {
    assert_eq!(parse_u16("2222"), Some(2222));
    assert_eq!(parse_u16("+80"), Some(80));
    assert_eq!(parse_u16("65536"), None);
    assert_eq!(parse_u16(""), None);
    assert_eq!(parse_u16("12a"), None);
    assert_eq!(parse_u32("4294967295"), Some(4294967295));
    assert_eq!(parse_u64("007"), Some(7));
    assert_eq!(parse_u64("-1"), None);
    for s in ["0", "1", "+5", "99999", "65535", "65536", "x", "", "+"] {
        assert_eq!(parse_u16(s), s.parse::<u16>().ok());
    }
}
