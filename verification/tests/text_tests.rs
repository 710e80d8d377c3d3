use deskshortcut::text::{
    chars_of, chars_equal, eq_ignore_ascii_case, find_char, parse_i32, push_decimal, rfind_char,
    string_of, strip_chars, Strip,
};

fn cs(s: &str) -> Vec<char> {
    chars_of(s)
}

#[test]
fn chars_round_trip_through_string() {
    let v = cs("快捷 ab");
    assert_eq!(v, vec!['快', '捷', ' ', 'a', 'b']);
    assert_eq!(string_of(&v), "快捷 ab");
}

#[test]
fn strip_whitespace_and_quotes() {
    assert_eq!(string_of(&strip_chars(&cs("  \t\"C:\\a b\"\n "), Strip::Whitespace)), "\"C:\\a b\"");
    assert_eq!(string_of(&strip_chars(&cs("\"\"x\"\""), Strip::Quote)), "x");
    assert_eq!(string_of(&strip_chars(&cs("   "), Strip::Whitespace)), "");
    assert_eq!(string_of(&strip_chars(&cs("\u{3000}a\u{a0}"), Strip::Whitespace)), "a");
    assert_eq!(string_of(&strip_chars(&cs(" a b "), Strip::Quote)), " a b ");
}

#[test]
fn find_first_and_last() {
    let v = cs("a%b%c");
    assert_eq!(find_char(&v, 0, '%'), Some(1));
    assert_eq!(find_char(&v, 2, '%'), Some(3));
    assert_eq!(find_char(&v, 4, '%'), None);
    assert_eq!(rfind_char(&cs("a,b,c"), ','), Some(3));
    assert_eq!(rfind_char(&cs("abc"), ','), None);
}

#[test]
fn ascii_case_insensitive_comparison() {
    assert!(eq_ignore_ascii_case(&cs("LnK"), &cs("lnk")));
    assert!(!eq_ignore_ascii_case(&cs("lnk"), &cs("lnx")));
    assert!(!eq_ignore_ascii_case(&cs("lnk"), &cs("lnkk")));
    assert!(!eq_ignore_ascii_case(&cs("É"), &cs("é")));
    assert!(chars_equal(&cs("ab"), &cs("ab")));
    assert!(!chars_equal(&cs("ab"), &cs("aB")));
}

#[test]
fn parse_i32_like_std() {
    let cases = [
        "0", "12", "-7", "+3", "", "+", "-", "2147483647", "2147483648", "-2147483648",
        "-2147483649", " 1", "1 ", "1a", "007", "99999999999999999999", "+-1", "٣",
    ];
    for c in cases {
        assert_eq!(parse_i32(&cs(c)), c.parse::<i32>().ok(), "input {c:?}");
    }
}

#[test]
fn decimal_digits() {
    let mut s = String::from("x=");
    push_decimal(&mut s, 0);
    assert_eq!(s, "x=0");
    let mut t = String::new();
    push_decimal(&mut t, 18446744073709551615);
    assert_eq!(t, "18446744073709551615");
}

#[test]
fn whitespace_strip_matches_std_trim() {
    let mut c: u32 = 0;
    while c <= 0x10FFFF {
        if let Some(ch) = char::from_u32(c) {
            let v = vec![ch, 'x', ch];
            let expected: Vec<char> = format!("{ch}x{ch}").trim().chars().collect();
            assert_eq!(strip_chars(&v, Strip::Whitespace), expected, "code point {c:#x}");
        }
        c += if c < 0x4000 { 1 } else { 7 };
    }
}
