use wave_test_lib::number::{integer_to_text, natural_to_text, parse_decimal};
use wave_test_lib::value::TokenValue;

#[test]
fn plain_digits() {
    assert_eq!(parse_decimal(b"0", 0, 255), Some(0));
    assert_eq!(parse_decimal(b"42", 0, 255), Some(42));
    assert_eq!(parse_decimal(b"255", 0, 255), Some(255));
    assert_eq!(parse_decimal(b"256", 0, 255), None);
    assert_eq!(parse_decimal(b"007", 0, 255), Some(7));
    assert_eq!(
        parse_decimal(b"000000000000000000000000000000000000000000000000012", 0, 255),
        Some(12)
    );
}

#[test]
fn signs() {
    assert_eq!(parse_decimal(b"+7", 0, 255), Some(7));
    assert_eq!(parse_decimal(b"-7", 0, 255), None);
    assert_eq!(parse_decimal(b"-0", 0, 255), None);
    assert_eq!(parse_decimal(b"-7", -128, 127), Some(-7));
    assert_eq!(parse_decimal(b"-0", -128, 127), Some(0));
    assert_eq!(parse_decimal(b"-128", -128, 127), Some(-128));
    assert_eq!(parse_decimal(b"-129", -128, 127), None);
    assert_eq!(parse_decimal(b"128", -128, 127), None);
    assert_eq!(parse_decimal(b"+127", -128, 127), Some(127));
}

#[test]
fn malformed_numbers() {
    assert_eq!(parse_decimal(b"", -128, 127), None);
    assert_eq!(parse_decimal(b"+", -128, 127), None);
    assert_eq!(parse_decimal(b"-", -128, 127), None);
    assert_eq!(parse_decimal(b"+-1", -128, 127), None);
    assert_eq!(parse_decimal(b"--1", -128, 127), None);
    assert_eq!(parse_decimal(b"1a", -128, 127), None);
    assert_eq!(parse_decimal(b"a1", -128, 127), None);
    assert_eq!(parse_decimal(b"1 ", -128, 127), None);
    assert_eq!(parse_decimal(b"1.0", -128, 127), None);
    assert_eq!(parse_decimal(b"0x10", -128, 127), None);
    assert_eq!(parse_decimal(b"9/", -128, 127), None);
    assert_eq!(parse_decimal(b"9:", -128, 127), None);
}

#[test]
fn widest_ranges() {
    let low = i64::MIN as i128;
    let high = i64::MAX as i128;
    assert_eq!(parse_decimal(b"-9223372036854775808", low, high), Some(low));
    assert_eq!(parse_decimal(b"-9223372036854775809", low, high), None);
    assert_eq!(parse_decimal(b"9223372036854775807", low, high), Some(high));
    assert_eq!(parse_decimal(b"9223372036854775808", low, high), None);
    assert_eq!(
        parse_decimal(b"18446744073709551615", 0, u64::MAX as i128),
        Some(u64::MAX as i128)
    );
    assert_eq!(parse_decimal(b"18446744073709551616", 0, u64::MAX as i128), None);
    assert_eq!(
        parse_decimal(b"170141183460469231731687303715884105727", 0, i128::MAX),
        Some(i128::MAX)
    );
    assert_eq!(parse_decimal(b"170141183460469231731687303715884105728", 0, i128::MAX), None);
    assert_eq!(
        parse_decimal(b"99999999999999999999999999999999999999999999999999", 0, i128::MAX),
        None
    );
}

#[test]
fn typed_parsing_agrees_with_std() {
    let samples = [
        "0", "1", "-1", "+1", "127", "128", "-128", "-129", "255", "256", "32767", "32768",
        "-32768", "-32769", "65535", "65536", "2147483647", "2147483648", "-2147483648",
        "-2147483649", "4294967295", "4294967296", "9223372036854775807", "9223372036854775808",
        "-9223372036854775808", "-9223372036854775809", "18446744073709551615",
        "18446744073709551616", "", "+", "-", "abc", "12x", " 1", "1 ", "00012", "-00012", "+-3",
        "1e3", "1_000", "\u{661}",
    ];
    for s in samples {
        assert_eq!(<i8 as TokenValue>::parse(s.as_bytes()), s.parse::<i8>().ok(), "{}", s);
        assert_eq!(<u8 as TokenValue>::parse(s.as_bytes()), s.parse::<u8>().ok(), "{}", s);
        assert_eq!(<i16 as TokenValue>::parse(s.as_bytes()), s.parse::<i16>().ok(), "{}", s);
        assert_eq!(<u16 as TokenValue>::parse(s.as_bytes()), s.parse::<u16>().ok(), "{}", s);
        assert_eq!(<i32 as TokenValue>::parse(s.as_bytes()), s.parse::<i32>().ok(), "{}", s);
        assert_eq!(<u32 as TokenValue>::parse(s.as_bytes()), s.parse::<u32>().ok(), "{}", s);
        assert_eq!(<i64 as TokenValue>::parse(s.as_bytes()), s.parse::<i64>().ok(), "{}", s);
        assert_eq!(<u64 as TokenValue>::parse(s.as_bytes()), s.parse::<u64>().ok(), "{}", s);
    }
}

#[test]
fn numbers_as_text() {
    assert_eq!(natural_to_text(0), "0");
    assert_eq!(natural_to_text(9), "9");
    assert_eq!(natural_to_text(10), "10");
    assert_eq!(natural_to_text(1234567890), "1234567890");
    assert_eq!(natural_to_text(u128::MAX), u128::MAX.to_string());
    assert_eq!(integer_to_text(0), "0");
    assert_eq!(integer_to_text(-1), "-1");
    assert_eq!(integer_to_text(-120), "-120");
    assert_eq!(integer_to_text(i128::MIN), i128::MIN.to_string());
    assert_eq!(integer_to_text(i128::MAX), i128::MAX.to_string());
}

#[test]
fn typed_values_render_and_compare() {
    assert_eq!(TokenValue::render(&-128i8), "-128");
    assert_eq!(TokenValue::render(&255u8), "255");
    assert_eq!(TokenValue::render(&i64::MIN), "-9223372036854775808");
    assert_eq!(TokenValue::render(&u64::MAX), "18446744073709551615");
    assert!(TokenValue::equals(&5i32, &5i32));
    assert!(!TokenValue::equals(&5u16, &6u16));
}

#[test]
fn text_of_a_number_reads_back() {
    for v in [i64::MIN, -1000, -1, 0, 1, 99, 100, i64::MAX] {
        let text = TokenValue::render(&v);
        assert_eq!(<i64 as TokenValue>::parse(text.as_bytes()), Some(v));
    }
}

#[test]
fn ranges_of_any_shape() {
    assert_eq!(parse_decimal(b"7", 5, 10), Some(7));
    assert_eq!(parse_decimal(b"4", 5, 10), None);
    assert_eq!(parse_decimal(b"-7", 5, 10), None);
    assert_eq!(parse_decimal(b"-7", -10, -5), Some(-7));
    assert_eq!(parse_decimal(b"-4", -10, -5), None);
    assert_eq!(parse_decimal(b"0", -10, -5), None);
    assert_eq!(parse_decimal(b"7", -10, -5), None);
    assert_eq!(parse_decimal(b"3", 10, 5), None);
    assert_eq!(
        parse_decimal(b"-170141183460469231731687303715884105728", i128::MIN, i128::MAX),
        Some(i128::MIN)
    );
    assert_eq!(
        parse_decimal(b"-170141183460469231731687303715884105729", i128::MIN, i128::MAX),
        None
    );
    assert_eq!(
        parse_decimal(b"-170141183460469231731687303715884105728", i128::MIN, 0),
        Some(i128::MIN)
    );
}
