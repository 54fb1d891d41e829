//! Decimal integers: what a token says as a number, and a number as text.

use vstd::prelude::*;

verus! {

pub const PLUS: u8 = 43;

pub const MINUS: u8 = 45;

pub const DIGIT_ZERO: u8 = 48;

pub const DIGIT_NINE: u8 = 57;

/// Whether `byte` is an ASCII decimal digit.
pub open spec fn is_digit(byte: u8) -> bool {
    DIGIT_ZERO <= byte <= DIGIT_NINE
}

/// Whether `s` holds ASCII decimal digits only.
pub open spec fn all_digits(s: Seq<u8>) -> bool {
    forall|i: int| 0 <= i < s.len() ==> is_digit(#[trigger] s[i])
}

/// The number that a string of digits writes; 0 for the empty string.
pub open spec fn digits_value(s: Seq<u8>) -> nat
    decreases s.len(),
{
    if s.len() == 0 {
        0
    } else {
        (digits_value(s.drop_last()) * 10 + (s.last() - DIGIT_ZERO)) as nat
    }
}

/// The number that `s` writes in decimal: an optional sign, then one digit
/// or more and nothing else. A minus sign is read only where `signed` is set.
pub open spec fn decimal_value(s: Seq<u8>, signed: bool) -> Option<int> {
    if s.len() == 0 {
        None
    } else if s[0] == PLUS {
        if s.len() > 1 && all_digits(s.skip(1)) {
            Some(digits_value(s.skip(1)) as int)
        } else {
            None
        }
    } else if s[0] == MINUS && signed {
        if s.len() > 1 && all_digits(s.skip(1)) {
            Some(-(digits_value(s.skip(1)) as int))
        } else {
            None
        }
    } else if all_digits(s) {
        Some(digits_value(s) as int)
    } else {
        None
    }
}

/// The number that `s` writes, where it lies between `lowest` and `highest`.
/// A minus sign is read only where `lowest` is negative.
pub open spec fn decimal_within(s: Seq<u8>, lowest: int, highest: int) -> Option<int> {
    match decimal_value(s, lowest < 0) {
        Some(v) => if lowest <= v <= highest {
            Some(v)
        } else {
            None
        },
        None => None,
    }
}

/// A digit as text.
pub open spec fn digit_text(d: int) -> Seq<char> {
    if d == 0 {
        "0"@
    } else if d == 1 {
        "1"@
    } else if d == 2 {
        "2"@
    } else if d == 3 {
        "3"@
    } else if d == 4 {
        "4"@
    } else if d == 5 {
        "5"@
    } else if d == 6 {
        "6"@
    } else if d == 7 {
        "7"@
    } else if d == 8 {
        "8"@
    } else {
        "9"@
    }
}

/// A natural number in decimal, without leading zeros.
pub open spec fn natural_text(n: nat) -> Seq<char>
    decreases n,
{
    if n < 10 {
        digit_text(n as int)
    } else {
        natural_text(n / 10) + digit_text((n % 10) as int)
    }
}

/// An integer in decimal, with a minus sign where it is negative.
pub open spec fn integer_text(v: int) -> Seq<char> {
    if v < 0 {
        "-"@ + natural_text((-v) as nat)
    } else {
        natural_text(v as nat)
    }
}

/// Reads the digits of `bytes` from `start` on: the number they write, if
/// there is nothing but digits there and the number is at most `limit`.
fn parse_digits(bytes: &[u8], start: usize, limit: u128) -> (r: Option<u128>)
    requires
        start <= bytes.len(),
    ensures
        r matches Some(v) ==> all_digits(bytes@.skip(start as int)) && v == digits_value(
            bytes@.skip(start as int),
        ) && v <= limit,
        r is None ==> !all_digits(bytes@.skip(start as int)) || digits_value(
            bytes@.skip(start as int),
        ) > limit,
{
    let ghost t = bytes@.skip(start as int);
    let mut i: usize = start;
    let mut value: u128 = 0;
    let mut beyond: bool = false;
    while i < bytes.len()
        invariant
            t == bytes@.skip(start as int),
            start <= i <= bytes.len(),
            all_digits(t.take(i - start)),
            beyond ==> digits_value(t.take(i - start)) > limit,
            !beyond ==> value == digits_value(t.take(i - start)) && value <= limit,
        decreases bytes.len() - i,
    {
        let byte: u8 = bytes[i];
        let ghost before = t.take(i - start);
        let ghost after = t.take(i - start + 1);
        proof {
            assert(after.drop_last() =~= before);
        }
        if byte < DIGIT_ZERO || byte > DIGIT_NINE {
            assert(!is_digit(t[i - start]));
            return None;
        }
        assert forall|j: int| 0 <= j < after.len() implies is_digit(#[trigger] after[j]) by {
            if j < before.len() {
                assert(after[j] == before[j]);
            }
        }
        let digit: u128 = (byte - DIGIT_ZERO) as u128;
        if !beyond {
            if value > limit / 10 {
                beyond = true;
            } else if digit > limit - value * 10 {
                beyond = true;
            } else {
                value = value * 10 + digit;
            }
        }
        i = i + 1;
    }
    assert(t.take(i - start) =~= t);
    if beyond {
        None
    } else {
        Some(value)
    }
}

/// Reads `bytes` as a decimal integer between `lowest` and `highest`: an
/// optional sign, then digits. `None` where the bytes are not of that form or
/// the number lies outside the range.
pub fn parse_decimal(bytes: &[u8], lowest: i128, highest: i128) -> (r: Option<i128>)
    ensures
        match r {
            Some(v) => decimal_within(bytes@, lowest as int, highest as int) == Some(v as int),
            None => decimal_within(bytes@, lowest as int, highest as int) is None,
        },
{
    if bytes.len() == 0 {
        return None;
    }
    let first: u8 = bytes[0];
    if first == MINUS && lowest < 0 {
        if bytes.len() == 1 {
            return None;
        }
        let limit: u128 = if lowest == i128::MIN {
            (i128::MAX as u128) + 1
        } else {
            (-lowest) as u128
        };
        match parse_digits(bytes, 1, limit) {
            Some(magnitude) => {
                let value: i128 = if magnitude > i128::MAX as u128 {
                    i128::MIN
                } else {
                    -(magnitude as i128)
                };
                if value <= highest {
                    Some(value)
                } else {
                    None
                }
            },
            None => None,
        }
    } else {
        let start: usize = if first == PLUS {
            1
        } else {
            0
        };
        if bytes.len() == start {
            return None;
        }
        let limit: u128 = if highest < 0 {
            0
        } else {
            highest as u128
        };
        assert(bytes@.skip(0) =~= bytes@);
        match parse_digits(bytes, start, limit) {
            Some(magnitude) => {
                let value: i128 = magnitude as i128;
                if lowest <= value && value <= highest {
                    Some(value)
                } else {
                    None
                }
            },
            None => None,
        }
    }
}

/// A digit as text.
fn digit_str(d: u128) -> (text: &'static str)
    requires
        d < 10,
    ensures
        text@ == digit_text(d as int),
{
    if d == 0 {
        "0"
    } else if d == 1 {
        "1"
    } else if d == 2 {
        "2"
    } else if d == 3 {
        "3"
    } else if d == 4 {
        "4"
    } else if d == 5 {
        "5"
    } else if d == 6 {
        "6"
    } else if d == 7 {
        "7"
    } else if d == 8 {
        "8"
    } else {
        "9"
    }
}

/// Writes a natural number in decimal.
pub fn natural_to_text(n: u128) -> (text: String)
    ensures
        text@ == natural_text(n as nat),
    decreases n,
{
    if n < 10 {
        String::from_str(digit_str(n))
    } else {
        natural_to_text(n / 10).concat(digit_str(n % 10))
    }
}

/// Writes an integer in decimal.
pub fn integer_to_text(v: i128) -> (text: String)
    ensures
        text@ == integer_text(v as int),
{
    if v < 0 {
        let magnitude: u128 = ((-(v + 1)) as u128) + 1;
        let digits = natural_to_text(magnitude);
        String::from_str("-").concat(digits.as_str())
    } else {
        natural_to_text(v as u128)
    }
}

} // verus!
