use deskshortcut::wide::{decode_utf16, from_wide, wide_null};

#[test]
fn from_wide_stops_at_nul() {
    let mut buf = [0u16; 8];
    for (i, u) in "abc".encode_utf16().enumerate() {
        buf[i] = u;
    }
    buf[4] = 'z' as u16;
    assert_eq!(from_wide(&buf), "abc");
}

#[test]
fn from_wide_without_nul_takes_all() {
    let buf: Vec<u16> = "桌面".encode_utf16().collect();
    assert_eq!(from_wide(&buf), "桌面");
    assert_eq!(from_wide(&[]), "");
}

#[test]
fn from_wide_decodes_pairs_and_replaces_lone_surrogates() {
    let pair: Vec<u16> = "😀".encode_utf16().collect();
    assert_eq!(from_wide(&pair), "😀");
    let lone = [0x61u16, 0xD800, 0x62, 0xDC00, 0xD83D];
    assert_eq!(from_wide(&lone), String::from_utf16_lossy(&lone));
    assert_eq!(decode_utf16(&lone), "a\u{FFFD}b\u{FFFD}\u{FFFD}");
}

#[test]
fn wide_null_encodes_and_terminates() {
    let w = wide_null("a😀桌");
    let mut expected: Vec<u16> = "a😀桌".encode_utf16().collect();
    expected.push(0);
    assert_eq!(w, expected);
    assert_eq!(wide_null(""), vec![0]);
}

#[test]
fn wide_round_trip_law_on_examples() {
    for s in ["", "C:\\Program Files\\app.exe", "快捷方式 😀 \u{10FFFF}", "%SystemRoot%"] {
        assert_eq!(from_wide(&wide_null(s)), s);
    }
}
