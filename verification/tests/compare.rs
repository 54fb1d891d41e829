use wave_test_lib::compare::{
    compare_classified, comparison_code, passes_float_eq, passes_float_ne, wave_cmp_str,
    wave_cmp_str_eq, Comparison, Difference, FloatClass, EQUAL, FALSE, GREATER, LESS,
    NOT_COMPARABLE, TRUE,
};
use wave_test_lib::contract::{judge_value, JudgeReader};
use wave_test_lib::source::MemorySource;
use wave_test_lib::tokenized::TokenizedReader;
use wave_test_lib::verdict::Failure;

fn classify(x: f64) -> FloatClass {
    if x.is_nan() {
        FloatClass::Nan
    } else if x == f64::INFINITY {
        FloatClass::PositiveInfinity
    } else if x == f64::NEG_INFINITY {
        FloatClass::NegativeInfinity
    } else {
        FloatClass::Finite
    }
}

fn compare_floats(lhs: f64, rhs: f64, tolerance: f64) -> Comparison {
    assert!(!tolerance.is_nan());
    let diff = lhs - rhs;
    let difference = if diff.abs() <= tolerance.abs() {
        Difference::Within
    } else if diff < 0.0 {
        Difference::Below
    } else {
        Difference::Above
    };
    compare_classified(classify(lhs), classify(rhs), difference)
}

#[test]
fn test_compare_floats() {
    assert_eq!(compare_floats(1.0, 1.0, 1e-6), Comparison::Equal);
    assert_eq!(compare_floats(1.0, 2.0, 1e-6), Comparison::Less);
    assert_eq!(compare_floats(2.0, 1.0, 1e-6), Comparison::Greater);
    assert_eq!(compare_floats(1.0, 1.0 + 1e-8, 1e-6), Comparison::Equal);
    assert_eq!(compare_floats(1.0, 1.0 + 1e-8, -1e-6), Comparison::Equal);
    assert_eq!(compare_floats(1.0, 1.0 - 1e-8, 1e-6), Comparison::Equal);
    assert_eq!(compare_floats(1.0, f64::NAN, 1e-6), Comparison::Incomparable);
    assert_eq!(compare_floats(f64::NAN, 1.0, 1e-6), Comparison::Incomparable);
    assert_eq!(compare_floats(f64::NAN, f64::NAN, 1e-6), Comparison::Incomparable);
    assert_eq!(compare_floats(f64::INFINITY, 1.0, 1e-6), Comparison::Greater);
    assert_eq!(compare_floats(1.0, f64::INFINITY, 1e-6), Comparison::Less);
    assert_eq!(compare_floats(f64::INFINITY, f64::INFINITY, 1e-6), Comparison::Equal);
    assert_eq!(compare_floats(f64::NEG_INFINITY, 1.0, 1e-6), Comparison::Less);
    assert_eq!(compare_floats(1.0, f64::NEG_INFINITY, 1e-6), Comparison::Greater);
    assert_eq!(compare_floats(f64::NEG_INFINITY, f64::NEG_INFINITY, 1e-6), Comparison::Equal);
    assert_eq!(compare_floats(f64::INFINITY, f64::NEG_INFINITY, 1e-6), Comparison::Greater);
    assert_eq!(compare_floats(f64::NEG_INFINITY, f64::INFINITY, 1e-6), Comparison::Less);
}

#[test]
fn every_decision() {
    let classes = [
        FloatClass::Nan,
        FloatClass::NegativeInfinity,
        FloatClass::PositiveInfinity,
        FloatClass::Finite,
    ];
    let differences = [
        (Difference::Within, Comparison::Equal),
        (Difference::Below, Comparison::Less),
        (Difference::Above, Comparison::Greater),
    ];
    for lhs in classes {
        for rhs in classes {
            for (difference, by_difference) in differences {
                let expected = if lhs == FloatClass::Nan || rhs == FloatClass::Nan {
                    Comparison::Incomparable
                } else if lhs == rhs && lhs != FloatClass::Finite {
                    Comparison::Equal
                } else {
                    by_difference
                };
                assert_eq!(compare_classified(lhs, rhs, difference), expected);
            }
        }
    }
}

#[test]
fn codes_of_outcomes() {
    assert_eq!(comparison_code(Comparison::Less), -1);
    assert_eq!(comparison_code(Comparison::Equal), 0);
    assert_eq!(comparison_code(Comparison::Greater), 1);
    assert_eq!(comparison_code(Comparison::Incomparable), i32::MAX);
    assert_eq!((LESS, EQUAL, GREATER, NOT_COMPARABLE), (-1, 0, 1, 2147483647));
    assert_eq!((TRUE, FALSE), (1, 0));
}

#[test]
fn float_expectations_pass_or_not() {
    assert!(passes_float_eq(Comparison::Equal));
    assert!(!passes_float_eq(Comparison::Less));
    assert!(!passes_float_eq(Comparison::Greater));
    assert!(!passes_float_eq(Comparison::Incomparable));
    assert!(!passes_float_ne(Comparison::Equal));
    assert!(passes_float_ne(Comparison::Less));
    assert!(passes_float_ne(Comparison::Greater));
    assert!(passes_float_ne(Comparison::Incomparable));
}

fn float_eq_accepts(text: &[u8], expected: f64, tolerance: f64) -> bool {
    let mut reader = JudgeReader::new(TokenizedReader::new(MemorySource::new(text.to_vec())));
    let token = reader.read_token().unwrap().unwrap();
    let value: f64 = token.parse().unwrap();
    passes_float_eq(compare_floats(value, expected, tolerance))
}

#[test]
fn float_within_tolerance_is_accepted() {
    assert!(float_eq_accepts(b"1.0000005", 1.0, 1e-6));
    assert!(!float_eq_accepts(b"1.1", 1.0, 1e-6));
    assert!(!float_eq_accepts(b"NaN", 1.0, 1e-6));
}

#[test]
fn a_failed_check_carries_its_detail() {
    let r: Result<u8, Failure> = judge_value(9, Err(String::from("not close")));
    match r {
        Err(Failure::Rejected(rejection)) => {
            assert_eq!(rejection.message(), "Unexpected value: \"9\": not close")
        }
        other => panic!("{:?}", other),
    }
}

#[test]
fn order_of_texts_as_codes() {
    assert_eq!(wave_cmp_str("abc", "abd"), -1);
    assert_eq!(wave_cmp_str("abd", "abc"), 1);
    assert_eq!(wave_cmp_str("abc", "abc"), 0);
    assert_eq!(wave_cmp_str("", "a"), -1);
    assert_eq!(wave_cmp_str("Z", "a"), -1);
    assert_eq!(wave_cmp_str("\u{e9}", "z"), 1);
    let samples = ["", "a", "ab", "b", "B", "\u{e9}", "\u{4f60}", "zz"];
    for a in samples {
        for b in samples {
            let expected = if a < b {
                -1
            } else if a > b {
                1
            } else {
                0
            };
            assert_eq!(wave_cmp_str(a, b), expected);
        }
    }
}

#[test]
fn equality_of_texts_as_codes() {
    assert_eq!(wave_cmp_str_eq("Yes", "yes", true), 1);
    assert_eq!(wave_cmp_str_eq("Yes", "yes", false), 0);
    assert_eq!(wave_cmp_str_eq("yes", "yes", false), 1);
    assert_eq!(wave_cmp_str_eq("yes", "no", true), 0);
    assert_eq!(wave_cmp_str_eq("", "", false), 1);
}
