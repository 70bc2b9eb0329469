use tinyfiledialogs::text::{
    contains_str, eq_str, find_str, join_with_str, parse_u8_dec, split_on_char, split_on_str,
    starts_with_str, strip_prefixes_str, strip_suffix_chars_str, trim_str, u16_to_dec,
};

#[test]
fn finding_and_containing() {
    assert_eq!(find_str("hello", "ll"), Some(2));
    assert_eq!(find_str("hello", "he"), Some(0));
    assert_eq!(find_str("hello", "x"), None);
    assert_eq!(find_str("aaa", "aa"), Some(0));
    assert_eq!(find_str("abc", ""), Some(0));
    assert!(contains_str("button returned:OK", "button returned:OK"));
    assert!(!contains_str("button returned:Cancel", "button returned:OK"));
}

#[test]
fn equality_and_prefixes() {
    assert!(eq_str("abc", "abc"));
    assert!(!eq_str("abc", "abd"));
    assert!(!eq_str("abc", "ab"));
    assert!(starts_with_str("zenity", "zen"));
    assert!(!starts_with_str("zen", "zenity"));
    assert!(starts_with_str("anything", ""));
}

#[test]
fn trimming() {
    assert_eq!(trim_str("  a b \t\n"), "a b");
    assert_eq!(trim_str("x"), "x");
    assert_eq!(trim_str(" \r\n "), "");
    assert_eq!(trim_str(""), "");
}

#[test]
fn splitting_on_a_character() {
    assert_eq!(split_on_char("a|b|c", '|'), vec!["a", "b", "c"]);
    assert_eq!(split_on_char("a||b", '|'), vec!["a", "", "b"]);
    assert_eq!(split_on_char("", '|'), vec![""]);
    assert_eq!(split_on_char("abc", '|'), vec!["abc"]);
    assert_eq!(split_on_char("|", '|'), vec!["", ""]);
}

#[test]
fn splitting_on_a_string() {
    assert_eq!(split_on_str("a||b||c", "||"), vec!["a", "b", "c"]);
    assert_eq!(split_on_str("abc", "||"), vec!["abc"]);
    assert_eq!(split_on_str("|||", "||"), vec!["", "|"]);
}

#[test]
fn joining() {
    let parts = vec!["a".to_string(), "b".to_string(), "c".to_string()];
    assert_eq!(join_with_str(&parts, ", "), "a, b, c");
    assert_eq!(join_with_str(&parts[..1], ", "), "a");
    let empty: Vec<String> = vec![];
    assert_eq!(join_with_str(&empty, ", "), "");
}

#[test]
fn decimal_bytes() {
    assert_eq!(parse_u8_dec("0"), Some(0));
    assert_eq!(parse_u8_dec("255"), Some(255));
    assert_eq!(parse_u8_dec("+17"), Some(17));
    assert_eq!(parse_u8_dec("007"), Some(7));
    assert_eq!(parse_u8_dec("256"), None);
    assert_eq!(parse_u8_dec("999999"), None);
    assert_eq!(parse_u8_dec(""), None);
    assert_eq!(parse_u8_dec("+"), None);
    assert_eq!(parse_u8_dec("12a"), None);
    assert_eq!(parse_u8_dec("-1"), None);
}

#[test]
fn decimal_rendering() {
    assert_eq!(u16_to_dec(0), "0");
    assert_eq!(u16_to_dec(7), "7");
    assert_eq!(u16_to_dec(257), "257");
    assert_eq!(u16_to_dec(65535), "65535");
}

#[test]
fn stripping() {
    assert_eq!(strip_prefixes_str("*.txt", "*."), "txt");
    assert_eq!(strip_prefixes_str("*.*.txt", "*."), "txt");
    assert_eq!(strip_prefixes_str("txt", "*."), "txt");
    assert_eq!(strip_suffix_chars_str("ab))", ')'), "ab");
    assert_eq!(strip_suffix_chars_str("ab", ')'), "ab");
    assert_eq!(strip_suffix_chars_str(")))", ')'), "");
}
