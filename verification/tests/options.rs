use mosquitto_plugin::text::{contains_nul, same_text};
use mosquitto_plugin::{parse_options, MosquittoOpt};

#[test]
fn no_options_without_an_array() {
    let opts = parse_options(None, 0);
    assert!(opts.is_empty());
    assert_eq!(opts.len(), 0);
    assert_eq!(opts.get("topic"), None);
}

#[test]
fn no_options_with_an_array_and_a_count_of_zero() {
    let raw = [("topic", "sensors/temp"), ("level", "3")];
    let opts = parse_options(Some(&raw), 0);
    assert!(opts.is_empty());
    assert_eq!(opts.len(), 0);
    assert_eq!(opts.get("topic"), None);
    assert!(!opts.contains_key("level"));
}

#[test]
fn options_are_found_under_their_keys() {
    let raw = [("topic", "sensors/temp"), ("level", "3")];
    let opts = parse_options(Some(&raw), 2);
    assert_eq!(opts.len(), 2);
    assert!(!opts.is_empty());
    assert_eq!(opts.get("topic"), Some("sensors/temp"));
    assert_eq!(opts.get("level"), Some("3"));
    assert_eq!(opts.get("other"), None);
    assert!(opts.contains_key("topic"));
    assert!(!opts.contains_key("Topic"));
}

#[test]
fn the_later_of_two_equal_keys_wins() {
    let raw = [("topic", "first"), ("topic", "second")];
    let opts = parse_options(Some(&raw), 2);
    assert_eq!(opts.len(), 1);
    assert_eq!(opts.get("topic"), Some("second"));
}

#[test]
fn the_last_of_many_equal_keys_wins() {
    let raw = [("a", "1"), ("b", "2"), ("a", "3"), ("c", "4"), ("a", "5"), ("b", "6")];
    let opts = parse_options(Some(&raw), 6);
    assert_eq!(opts.len(), 3);
    assert_eq!(opts.get("a"), Some("5"));
    assert_eq!(opts.get("b"), Some("6"));
    assert_eq!(opts.get("c"), Some("4"));
}

#[test]
fn only_the_announced_pairs_are_read() {
    let raw = [("a", "1"), ("b", "2"), ("a", "3")];
    let opts = parse_options(Some(&raw), 2);
    assert_eq!(opts.len(), 2);
    assert_eq!(opts.get("a"), Some("1"));
    assert_eq!(opts.get("b"), Some("2"));
}

#[test]
fn empty_keys_and_values_are_kept() {
    let raw = [("", "nameless"), ("empty", "")];
    let opts = parse_options(Some(&raw), 2);
    assert_eq!(opts.get(""), Some("nameless"));
    assert_eq!(opts.get("empty"), Some(""));
}

#[test]
fn insert_returns_the_earlier_value() {
    let mut opts = MosquittoOpt::new();
    assert!(opts.is_empty());
    assert_eq!(opts.insert("topic", "first"), None);
    assert_eq!(opts.insert("level", "1"), None);
    assert_eq!(opts.insert("topic", "second"), Some("first"));
    assert_eq!(opts.len(), 2);
    assert_eq!(opts.get("topic"), Some("second"));
    assert_eq!(opts.get("level"), Some("1"));
}

#[test]
fn keys_are_compared_as_text() {
    let owned = String::from("top") + "ic";
    let raw = [("topic", "x")];
    let opts = parse_options(Some(&raw), 1);
    assert_eq!(opts.get(&owned), Some("x"));
    assert_eq!(opts.get("topi"), None);
    assert_eq!(opts.get("topics"), None);
    assert_eq!(opts.get("t\u{f6}pic"), None);
}

#[test]
fn same_text_compares_every_byte() {
    assert!(same_text("", ""));
    assert!(same_text("abc", "abc"));
    assert!(!same_text("abc", "abd"));
    assert!(!same_text("abc", "ab"));
    assert!(!same_text("ab", "abc"));
    assert!(same_text("gr\u{fc}n", "gr\u{fc}n"));
    assert!(!same_text("gr\u{fc}n", "grun"));
}

#[test]
fn contains_nul_finds_the_byte() {
    assert!(!contains_nul(""));
    assert!(!contains_nul("client"));
    assert!(contains_nul("\0"));
    assert!(contains_nul("cli\0ent"));
    assert!(contains_nul("client\0"));
    assert!(!contains_nul("gr\u{fc}n0"));
}
