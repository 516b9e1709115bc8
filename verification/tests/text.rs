use mypaas::ident::new_id;
use mypaas::paths::join;
use mypaas::table::Table;
use mypaas::text::{
    before, decimal_of, decimal_of_signed, ends_with, join_lines, lines, parse_unsigned,
    replace_char, same, split_once, starts_with, trim,
};

#[test]
fn prefixes_and_suffixes() {
    assert!(starts_with("Bearer abc", "Bearer "));
    assert!(!starts_with("Bear", "Bearer "));
    assert!(ends_with("app.localhost", ".localhost"));
    assert!(!ends_with("localhost", ".localhost"));
    assert!(ends_with("x", ""));
    assert!(same("a", "a"));
    assert!(!same("a", "ab"));
}

#[test]
fn trimming_takes_all_white_space() {
    assert_eq!(trim(" \t a b\u{2003}\n"), "a b");
    assert_eq!(trim("\u{a0}\r\n "), "");
    assert_eq!(trim("ab"), "ab");
}

#[test]
fn replacing_a_character() {
    assert_eq!(replace_char("it's", '\'', "''"), "it''s");
    assert_eq!(replace_char("my app", ' ', "-"), "my-app");
    assert_eq!(replace_char("none", '-', ""), "none");
}

#[test]
fn cutting_at_a_character() {
    assert_eq!(before("host:80", ':'), "host");
    assert_eq!(before("host", ':'), "host");
    assert_eq!(split_once("A=b=c", '='), Some(("A", "b=c")));
    assert_eq!(split_once("A", '='), None);
}

#[test]
fn lines_end_in_line_feeds() {
    assert_eq!(lines("a\r\nb\n\nc"), vec!["a", "b", "", "c"]);
    assert_eq!(lines("a\n"), vec!["a"]);
    assert!(lines("").is_empty());
    assert_eq!(lines("a\rb"), vec!["a\rb"]);
}

#[test]
fn joining_lines() {
    let v = vec!["a".to_string(), "b".to_string(), "".to_string()];
    assert_eq!(join_lines(&v, "\n"), "a\nb\n");
    assert_eq!(join_lines(&vec![], "\n"), "");
}

#[test]
fn decimal_notation_there_and_back() {
    for n in [0u64, 7, 10, 65_535, u64::MAX] {
        assert_eq!(decimal_of(n), n.to_string());
        assert_eq!(parse_unsigned(decimal_of(n).as_str(), u64::MAX), Some(n));
    }
    assert_eq!(decimal_of_signed(-42), "-42");
    assert_eq!(decimal_of_signed(i64::MIN), i64::MIN.to_string());
}

#[test]
fn numbers_out_of_range_are_none() {
    assert_eq!(parse_unsigned("65536", 65_535), None);
    assert_eq!(parse_unsigned("18446744073709551616", u64::MAX), None);
    assert_eq!(parse_unsigned("", 10), None);
    assert_eq!(parse_unsigned("+", 10), None);
    assert_eq!(parse_unsigned("+7", 10), Some(7));
    assert_eq!(parse_unsigned("-7", 10), None);
    assert_eq!(parse_unsigned(" 7", 10), None);
}

#[test]
fn joining_paths() {
    assert_eq!(join("/var/lib", "apps"), "/var/lib/apps");
    assert_eq!(join("/var/lib/", "apps"), "/var/lib/apps");
    assert_eq!(join("/var/lib", "/etc"), "/etc");
    assert_eq!(join("", "apps"), "apps");
}

#[test]
fn identifiers_are_random_uuids() {
    let a = new_id();
    let b = new_id();
    assert_ne!(a, b);
    assert_eq!(a.len(), 36);
    assert_eq!(a.chars().nth(14), Some('4'));
    assert!(a.chars().all(|c| c == '-' || c.is_ascii_digit() || ('a'..='f').contains(&c)));
}

#[test]
fn tables_hold_one_value_per_key() {
    let mut t: Table<u32> = Table::new();
    t.insert("a", 1);
    t.insert("b", 2);
    t.insert("a", 3);
    assert_eq!(t.get("a"), Some(&3));
    assert_eq!(t.keys().len(), 2);
    if let Some(v) = t.get_mut("b") {
        *v = 9;
    }
    assert_eq!(t.remove("b"), Some(9));
    assert_eq!(t.remove("b"), None);
    assert!(!t.contains_key("b"));
    assert!(t.contains_key("a"));
}
