use fast_down_c::ctext::CText;
use fast_down_c::text::{push_decimal_digits, push_decimal_i32, text_eq, utf8_is_valid};

#[test]
fn ctext_keeps_clean_bytes() {
    let t = CText::from_bytes_or_empty(b"hello");
    assert_eq!(t.content(), b"hello");
    assert_eq!(t.with_nul(), b"hello\0");
    assert_eq!(t.len(), 5);
}

#[test]
fn ctext_with_nul_byte_becomes_empty() {
    let t = CText::from_bytes_or_empty(b"he\0llo");
    assert_eq!(t.content(), b"");
    assert_eq!(t.with_nul(), b"\0");
}

#[test]
fn ctext_fallback_when_nul() {
    let fallback = CText::from_bytes_or_empty(b"fallback");
    let t = CText::from_bytes_or(b"a\0b", &fallback);
    assert_eq!(t.content(), b"fallback");
    let u = CText::from_bytes_or(b"ab", &fallback);
    assert_eq!(u.content(), b"ab");
}

#[test]
fn ctext_from_str_uses_utf8_bytes() {
    let t = CText::from_str_or_empty("é");
    assert_eq!(t.content(), "é".as_bytes());
    assert_eq!(CText::empty().content(), b"");
    assert_eq!(t.duplicate().content(), t.content());
    assert!(CText::fits(b"abc"));
    assert!(!CText::fits(b"a\0"));
}

fn decimal(x: i32) -> Vec<u8> {
    let mut out = Vec::new();
    push_decimal_i32(&mut out, x);
    out
}

#[test]
fn decimal_numerals_match_display() {
    for x in [0, 7, 10, 42, -1, -42, 1000, i32::MAX, i32::MIN] {
        assert_eq!(decimal(x), x.to_string().into_bytes());
    }
    let mut out = b"n=".to_vec();
    push_decimal_digits(&mut out, u64::MAX);
    assert_eq!(out, format!("n={}", u64::MAX).into_bytes());
}

#[test]
fn text_equality() {
    assert!(text_eq("no", "no"));
    assert!(!text_eq("no", "No"));
    assert!(text_eq("", ""));
}

#[test]
fn utf8_validity_matches_std_on_short_inputs() {
    for a in 0..=255u8 {
        assert_eq!(utf8_is_valid(&[a]), std::str::from_utf8(&[a]).is_ok());
        for b in 0..=255u8 {
            let two = [a, b];
            assert_eq!(utf8_is_valid(&two), std::str::from_utf8(&two).is_ok());
        }
    }
    let samples: &[&[u8]] = &[
        b"",
        "héllo wörld".as_bytes(),
        "日本語".as_bytes(),
        "😀".as_bytes(),
        &[0xe0, 0x80, 0x80],
        &[0xed, 0xa0, 0x80],
        &[0xef, 0xbf, 0xbf],
        &[0xf0, 0x8f, 0xbf, 0xbf],
        &[0xf4, 0x8f, 0xbf, 0xbf],
        &[0xf4, 0x90, 0x80, 0x80],
        &[0xf5, 0x80, 0x80, 0x80],
        &[0xe2, 0x82],
        &[b'a', 0xc3, 0xa9, b'b'],
    ];
    for s in samples {
        assert_eq!(utf8_is_valid(s), std::str::from_utf8(s).is_ok(), "{s:?}");
    }
    for a in [0xe0u8, 0xed, 0xef, 0xf0, 0xf4] {
        for b in 0x70..=0xc0u8 {
            for c in [0x7fu8, 0x80, 0xbf, 0xc0] {
                let three = [a, b, c];
                assert_eq!(utf8_is_valid(&three), std::str::from_utf8(&three).is_ok());
                let four = [a, b, c, 0x80];
                assert_eq!(utf8_is_valid(&four), std::str::from_utf8(&four).is_ok());
            }
        }
    }
}
