//! Values that a token can stand for.

use vstd::prelude::*;
use crate::number::{decimal_within, integer_text, integer_to_text, parse_decimal};

verus! {

/// A type of values that are read from tokens and written into messages.
pub trait TokenValue: Sized {
    /// The value that the bytes of a token stand for, if any.
    spec fn parsed(token: Seq<u8>) -> Option<Self>;

    /// The value as it is shown in a message.
    spec fn rendered(&self) -> Seq<char>;

    /// Reads a value from the bytes of a token.
    fn parse(token: &[u8]) -> (value: Option<Self>)
        ensures
            value == Self::parsed(token@),
    ;

    /// Writes the value as text.
    fn render(&self) -> (text: String)
        ensures
            text@ == self.rendered(),
    ;

    /// Whether two values are the same.
    fn equals(&self, other: &Self) -> (same: bool)
        ensures
            same == (*self == *other),
    ;
}

impl TokenValue for i8 {
    open spec fn parsed(token: Seq<u8>) -> Option<i8> {
        match decimal_within(token, i8::MIN as int, i8::MAX as int) {
            Some(v) => Some(v as i8),
            None => None,
        }
    }

    open spec fn rendered(&self) -> Seq<char> {
        integer_text(*self as int)
    }

    fn parse(token: &[u8]) -> (value: Option<i8>) {
        match parse_decimal(token, i8::MIN as i128, i8::MAX as i128) {
            Some(v) => Some(v as i8),
            None => None,
        }
    }

    fn render(&self) -> (text: String) {
        integer_to_text(*self as i128)
    }

    fn equals(&self, other: &i8) -> (same: bool) {
        *self == *other
    }
}

impl TokenValue for u8 {
    open spec fn parsed(token: Seq<u8>) -> Option<u8> {
        match decimal_within(token, u8::MIN as int, u8::MAX as int) {
            Some(v) => Some(v as u8),
            None => None,
        }
    }

    open spec fn rendered(&self) -> Seq<char> {
        integer_text(*self as int)
    }

    fn parse(token: &[u8]) -> (value: Option<u8>) {
        match parse_decimal(token, u8::MIN as i128, u8::MAX as i128) {
            Some(v) => Some(v as u8),
            None => None,
        }
    }

    fn render(&self) -> (text: String) {
        integer_to_text(*self as i128)
    }

    fn equals(&self, other: &u8) -> (same: bool) {
        *self == *other
    }
}

impl TokenValue for i16 {
    open spec fn parsed(token: Seq<u8>) -> Option<i16> {
        match decimal_within(token, i16::MIN as int, i16::MAX as int) {
            Some(v) => Some(v as i16),
            None => None,
        }
    }

    open spec fn rendered(&self) -> Seq<char> {
        integer_text(*self as int)
    }

    fn parse(token: &[u8]) -> (value: Option<i16>) {
        match parse_decimal(token, i16::MIN as i128, i16::MAX as i128) {
            Some(v) => Some(v as i16),
            None => None,
        }
    }

    fn render(&self) -> (text: String) {
        integer_to_text(*self as i128)
    }

    fn equals(&self, other: &i16) -> (same: bool) {
        *self == *other
    }
}

impl TokenValue for u16 {
    open spec fn parsed(token: Seq<u8>) -> Option<u16> {
        match decimal_within(token, u16::MIN as int, u16::MAX as int) {
            Some(v) => Some(v as u16),
            None => None,
        }
    }

    open spec fn rendered(&self) -> Seq<char> {
        integer_text(*self as int)
    }

    fn parse(token: &[u8]) -> (value: Option<u16>) {
        match parse_decimal(token, u16::MIN as i128, u16::MAX as i128) {
            Some(v) => Some(v as u16),
            None => None,
        }
    }

    fn render(&self) -> (text: String) {
        integer_to_text(*self as i128)
    }

    fn equals(&self, other: &u16) -> (same: bool) {
        *self == *other
    }
}

impl TokenValue for i32 {
    open spec fn parsed(token: Seq<u8>) -> Option<i32> {
        match decimal_within(token, i32::MIN as int, i32::MAX as int) {
            Some(v) => Some(v as i32),
            None => None,
        }
    }

    open spec fn rendered(&self) -> Seq<char> {
        integer_text(*self as int)
    }

    fn parse(token: &[u8]) -> (value: Option<i32>) {
        match parse_decimal(token, i32::MIN as i128, i32::MAX as i128) {
            Some(v) => Some(v as i32),
            None => None,
        }
    }

    fn render(&self) -> (text: String) {
        integer_to_text(*self as i128)
    }

    fn equals(&self, other: &i32) -> (same: bool) {
        *self == *other
    }
}

impl TokenValue for u32 {
    open spec fn parsed(token: Seq<u8>) -> Option<u32> {
        match decimal_within(token, u32::MIN as int, u32::MAX as int) {
            Some(v) => Some(v as u32),
            None => None,
        }
    }

    open spec fn rendered(&self) -> Seq<char> {
        integer_text(*self as int)
    }

    fn parse(token: &[u8]) -> (value: Option<u32>) {
        match parse_decimal(token, u32::MIN as i128, u32::MAX as i128) {
            Some(v) => Some(v as u32),
            None => None,
        }
    }

    fn render(&self) -> (text: String) {
        integer_to_text(*self as i128)
    }

    fn equals(&self, other: &u32) -> (same: bool) {
        *self == *other
    }
}

impl TokenValue for i64 {
    open spec fn parsed(token: Seq<u8>) -> Option<i64> {
        match decimal_within(token, i64::MIN as int, i64::MAX as int) {
            Some(v) => Some(v as i64),
            None => None,
        }
    }

    open spec fn rendered(&self) -> Seq<char> {
        integer_text(*self as int)
    }

    fn parse(token: &[u8]) -> (value: Option<i64>) {
        match parse_decimal(token, i64::MIN as i128, i64::MAX as i128) {
            Some(v) => Some(v as i64),
            None => None,
        }
    }

    fn render(&self) -> (text: String) {
        integer_to_text(*self as i128)
    }

    fn equals(&self, other: &i64) -> (same: bool) {
        *self == *other
    }
}

impl TokenValue for u64 {
    open spec fn parsed(token: Seq<u8>) -> Option<u64> {
        match decimal_within(token, u64::MIN as int, u64::MAX as int) {
            Some(v) => Some(v as u64),
            None => None,
        }
    }

    open spec fn rendered(&self) -> Seq<char> {
        integer_text(*self as int)
    }

    fn parse(token: &[u8]) -> (value: Option<u64>) {
        match parse_decimal(token, u64::MIN as i128, u64::MAX as i128) {
            Some(v) => Some(v as u64),
            None => None,
        }
    }

    fn render(&self) -> (text: String) {
        integer_to_text(*self as i128)
    }

    fn equals(&self, other: &u64) -> (same: bool) {
        *self == *other
    }
}

} // verus!
