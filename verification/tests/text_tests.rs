use rustic_vault::paths::{contains_path, same_path};
use rustic_vault::text::{
    decimal_string, join_strings, parse_list, parse_u32, same_text, text_less, trimmed,
};

fn strings(items: &[&str]) -> Vec<String> {
    items.iter().map(|s| s.to_string()).collect()
}

#[test]
fn decimal_string_writes_digits() {
    assert_eq!(decimal_string(0), "0");
    assert_eq!(decimal_string(7), "7");
    assert_eq!(decimal_string(1234), "1234");
    assert_eq!(decimal_string(u64::MAX), u64::MAX.to_string());
}

#[test]
fn parse_u32_accepts_what_str_parse_accepts() {
    assert_eq!(parse_u32("42"), Some(42));
    assert_eq!(parse_u32("+7"), Some(7));
    assert_eq!(parse_u32("007"), Some(7));
    assert_eq!(parse_u32("4294967295"), Some(u32::MAX));
    assert_eq!(parse_u32("4294967296"), None);
    assert_eq!(parse_u32(""), None);
    assert_eq!(parse_u32("+"), None);
    assert_eq!(parse_u32("-1"), None);
    assert_eq!(parse_u32(" 1"), None);
    assert_eq!(parse_u32("12a"), None);
    for s in ["0", "+0", "99999999999", "17", "x", "1 2"] {
        assert_eq!(parse_u32(s), s.parse::<u32>().ok(), "{s}");
    }
}

#[test]
fn decimal_round_trip_through_parse() {
    for n in [0u32, 1, 9, 10, 12, 4096, u32::MAX] {
        assert_eq!(parse_u32(&decimal_string(n as u64)), Some(n));
    }
}

#[test]
fn trimmed_removes_unicode_white_space() {
    let c: Vec<char> = " \t a b \u{3000}\n".chars().collect();
    assert_eq!(trimmed(&c), "a b");
    let e: Vec<char> = "   ".chars().collect();
    assert_eq!(trimmed(&e), "");
    let s = "\u{85}x\u{a0}";
    let c: Vec<char> = s.chars().collect();
    assert_eq!(trimmed(&c), s.trim());
}

#[test]
fn parse_list_splits_trims_and_drops_empty_items() {
    assert_eq!(parse_list("a, b ,,c "), strings(&["a", "b", "c"]));
    assert_eq!(parse_list(""), Vec::<String>::new());
    assert_eq!(parse_list(" , ,"), Vec::<String>::new());
    assert_eq!(parse_list("node_modules"), strings(&["node_modules"]));
}

#[test]
fn join_then_parse_gives_the_items_back() {
    let items = strings(&["node_modules", ".cache", "__pycache__", "*.tmp", ".git"]);
    let joined = join_strings(&items, ", ");
    assert_eq!(joined, "node_modules, .cache, __pycache__, *.tmp, .git");
    assert_eq!(parse_list(&joined), items);
    assert_eq!(join_strings(&Vec::new(), ", "), "");
}

#[test]
fn same_text_and_text_less_follow_str() {
    assert!(same_text("abc", "abc"));
    assert!(!same_text("abc", "abd"));
    assert!(!same_text("ab", "abc"));
    let pairs = [("a", "b"), ("b", "a"), ("ab", "abc"), ("abc", "ab"), ("", "a"), ("a", ""), ("same", "same"), ("Zeta", "alpha")];
    for (a, b) in pairs {
        assert_eq!(text_less(a, b), a < b, "{a} {b}");
    }
}

#[test]
fn paths_compare_by_components() {
    assert!(same_path("/home/u/docs", "/home/u/docs/"));
    assert!(same_path("a/b", "a//b"));
    assert!(!same_path("/home/u/docs", "/home/u/docs2"));
    assert!(!same_path("/a", "a"));
    assert!(contains_path(&vec!["/x".to_string(), "/y/".to_string()], &"/y".to_string()));
    assert!(!contains_path(&vec!["/x".to_string()], &"/y".to_string()));
}
