use svg_react_preview::text::{parse_usize, push_decimal, push_hex, replace, split_char, trimmed};

#[test]
fn trims_unicode_white_space() {
    assert_eq!(trimmed("  a b\t\n"), "a b");
    assert_eq!(trimmed("\u{3000}x\u{a0}"), "x");
    assert_eq!(trimmed(" \r\n "), "");
    assert_eq!(trimmed("x"), "x");
}

#[test]
fn replaces_non_overlapping_from_the_left() {
    assert_eq!(replace("a--b", "--", "- - "), "a- - b");
    assert_eq!(replace("----", "--", "x"), "xx");
    assert_eq!(replace("---", "--", "x"), "x-");
    assert_eq!(replace("abc", "z", "y"), "abc");
}

#[test]
fn splits_like_str_split() {
    assert_eq!(split_char("cmd+shift+v", '+'), vec!["cmd", "shift", "v"]);
    assert_eq!(split_char("", '+'), vec![""]);
    assert_eq!(split_char("+v", '+'), vec!["", "v"]);
    assert_eq!(split_char("a++", '+'), vec!["a", "", ""]);
}

#[test]
fn formats_numbers() {
    let mut s = String::new();
    push_decimal(&mut s, 0);
    s.push(' ');
    push_decimal(&mut s, 1234567890);
    assert_eq!(s, "0 1234567890");
    let mut h = String::new();
    push_hex(&mut h, 0xabc, 16);
    assert_eq!(h, "0000000000000abc");
    let mut m = String::new();
    push_hex(&mut m, u64::MAX, 16);
    assert_eq!(m, "ffffffffffffffff");
}

#[test]
fn parses_usize_like_str_parse() {
    assert_eq!(parse_usize("42"), Some(42));
    assert_eq!(parse_usize("+7"), Some(7));
    assert_eq!(parse_usize("007"), Some(7));
    assert_eq!(parse_usize(""), None);
    assert_eq!(parse_usize("+"), None);
    assert_eq!(parse_usize("-1"), None);
    assert_eq!(parse_usize("1x"), None);
    assert_eq!(parse_usize(" 1"), None);
    assert_eq!(parse_usize(&usize::MAX.to_string()), Some(usize::MAX));
    assert_eq!(parse_usize("99999999999999999999999"), None);
    for s in ["0", "12", "+3", "x", "", "18446744073709551616"] {
        assert_eq!(parse_usize(s), s.parse::<usize>().ok(), "{s}");
    }
}
