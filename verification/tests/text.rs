use wave_test_lib::text::{
    bytes_equal, bytes_equal_ignore_ascii_case, order_bytes, text_equal, to_ascii_lower,
};

#[test]
fn lower_case_of_every_byte() {
    for byte in 0..=255u8 {
        assert_eq!(to_ascii_lower(byte), byte.to_ascii_lowercase());
    }
    assert_eq!(to_ascii_lower(b'A'), b'a');
    assert_eq!(to_ascii_lower(b'Z'), b'z');
    assert_eq!(to_ascii_lower(b'@'), b'@');
    assert_eq!(to_ascii_lower(b'['), b'[');
}

#[test]
fn byte_strings_are_equal_or_not() {
    assert!(bytes_equal(b"", b""));
    assert!(bytes_equal(b"abc", b"abc"));
    assert!(!bytes_equal(b"abc", b"abd"));
    assert!(!bytes_equal(b"abc", b"ab"));
    assert!(!bytes_equal(b"abc", b"ABC"));
}

#[test]
fn equality_without_case() {
    assert!(bytes_equal_ignore_ascii_case(b"Yes", b"yEs"));
    assert!(bytes_equal_ignore_ascii_case(b"", b""));
    assert!(!bytes_equal_ignore_ascii_case(b"yes", b"yes "));
    assert!(!bytes_equal_ignore_ascii_case(b"a[", b"a{"));
    assert!(!bytes_equal_ignore_ascii_case(b"@", b"`"));
}

#[test]
fn text_equality_agrees_with_std() {
    let samples = ["", "a", "A", "Yes", "YES", "no", "stra\u{df}e", "STRA\u{df}E", "\u{e9}", "\u{c9}"];
    for a in samples {
        for b in samples {
            assert_eq!(text_equal(a, b, false), a == b);
            assert_eq!(text_equal(a, b, true), a.eq_ignore_ascii_case(b));
        }
    }
}

#[test]
fn every_text_matches_itself() {
    for a in ["", "x", "Mixed Case", "\u{4f60}\u{597d}"] {
        assert!(text_equal(a, a, false));
        assert!(text_equal(a, a, true));
    }
}

#[test]
fn order_of_byte_strings() {
    assert_eq!(order_bytes(b"", b""), 0);
    assert_eq!(order_bytes(b"", b"a"), -1);
    assert_eq!(order_bytes(b"a", b""), 1);
    assert_eq!(order_bytes(b"abc", b"abd"), -1);
    assert_eq!(order_bytes(b"abd", b"abc"), 1);
    assert_eq!(order_bytes(b"ab", b"abc"), -1);
    assert_eq!(order_bytes(b"abc", b"abc"), 0);
    assert_eq!(order_bytes(b"B", b"a"), -1);
    assert_eq!(order_bytes(&[0xff], &[0x01, 0x02]), 1);
}

#[test]
fn order_turns_round_when_sides_swap() {
    let samples: [&[u8]; 5] = [b"", b"a", b"ab", b"b", b"abc"];
    for a in samples {
        for b in samples {
            assert_eq!(order_bytes(a, b), -order_bytes(b, a));
            assert_eq!(order_bytes(a, b) == 0, a == b);
        }
    }
}
