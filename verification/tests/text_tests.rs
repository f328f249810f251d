use rust_rest_api::text::{
    find_char, i16_to_decimal, replace_str, split_str, str_ends_with, str_eq, str_starts_with,
    trim_str, u32_to_decimal, usize_to_decimal,
};

#[test]
fn trim_removes_unicode_whitespace_at_both_ends() {
    assert_eq!(trim_str("  en-US \t\n"), "en-US");
    assert_eq!(trim_str("\u{3000}id\u{a0}"), "id");
    assert_eq!(trim_str("   "), "");
    assert_eq!(trim_str("a b"), "a b");
}

#[test]
fn split_keeps_empty_pieces() {
    assert_eq!(split_str("en,,id", ','), vec!["en", "", "id"]);
    assert_eq!(split_str("", ','), vec![""]);
    assert_eq!(split_str("a,", ','), vec!["a", ""]);
    assert_eq!(split_str("no-comma", ','), vec!["no-comma"]);
}

#[test]
fn find_char_gives_first_index_or_length() {
    assert_eq!(find_char("Bearer s9999", ' '), 6);
    assert_eq!(find_char("abc", ' '), 3);
    assert_eq!(find_char("é x", ' '), 1);
}

#[test]
fn replace_is_left_to_right_and_non_overlapping() {
    assert_eq!(replace_str("aaa", "aa", "b"), "ba");
    assert_eq!(replace_str("dev,uat", ",", "-"), "dev-uat");
    assert_eq!(replace_str("{0} and {0}", "{0}", "x"), "x and x");
    assert_eq!(replace_str("none", "{1}", "x"), "none");
}

#[test]
fn prefix_suffix_and_equality() {
    assert!(str_starts_with("messages_en.properties", "messages_"));
    assert!(!str_starts_with("message", "messages_"));
    assert!(str_ends_with("messages_en.properties", ".properties"));
    assert!(!str_ends_with("properties", ".properties"));
    assert!(str_eq("00", "00"));
    assert!(!str_eq("00", "0"));
}

#[test]
fn decimal_notation() {
    assert_eq!(usize_to_decimal(0), "0");
    assert_eq!(usize_to_decimal(1234567), "1234567");
    assert_eq!(u32_to_decimal(4294967295), "4294967295");
    assert_eq!(i16_to_decimal(5432), "5432");
    assert_eq!(i16_to_decimal(-1), "-1");
    assert_eq!(i16_to_decimal(i16::MIN), "-32768");
    assert_eq!(i16_to_decimal(0), "0");
}
