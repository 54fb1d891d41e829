//! A reader that turns tokens into checked values: each expectation hands
//! back the value, or the failure that ends the run.

use vstd::prelude::*;
use vstd::utf8::*;
use crate::text::{text_equal, text_matches};
use crate::tokenized::{
    content, has_content, lemma_leading_delimiters, outcome_view, rest_after, text_outcome,
    whitespace, TokenizedRead,
};
use crate::value::TokenValue;
use crate::verdict::{Failure, FailureView, Fatal, Rejection, RejectionView};

verus! {

/// An expectation's outcome with the texts of its failure as sequences.
pub open spec fn failure_view<V>(r: Result<V, Failure>) -> Result<V, FailureView> {
    match r {
        Ok(v) => Ok(v),
        Err(failure) => Err(failure@),
    }
}

/// An expectation's outcome with all its texts as sequences.
pub open spec fn text_view(r: Result<String, Failure>) -> Result<Seq<char>, FailureView> {
    match r {
        Ok(text) => Ok(text@),
        Err(failure) => Err(failure@),
    }
}

/// The input that is left once the next token was read.
pub open spec fn after_token(input: Seq<u8>) -> Seq<u8> {
    rest_after(input, whitespace())
}

/// What reading the next token of `input` as a value gives where a token
/// that does not parse is a failure of the judge.
pub open spec fn value_read<U: TokenValue>(input: Seq<u8>) -> Result<Option<U>, Fatal> {
    match text_outcome(input, whitespace()) {
        Err(fatal) => Err(fatal),
        Ok(None) => Ok(None),
        Ok(Some(token)) => match U::parsed(encode_utf8(token)) {
            Some(value) => Ok(Some(value)),
            None => Err(Fatal::MalformedToken),
        },
    }
}

/// What expecting the text `expected` as the next token of `input` gives.
pub open spec fn token_expected(input: Seq<u8>, expected: Seq<char>, ignore_case: bool) -> Result<
    Seq<char>,
    FailureView,
> {
    match text_outcome(input, whitespace()) {
        Err(fatal) => Err(FailureView::Fatal(fatal)),
        Ok(None) => Err(FailureView::Rejected(RejectionView::UnexpectedEof)),
        Ok(Some(token)) => if text_matches(token, expected, ignore_case) {
            Ok(token)
        } else {
            Err(
                FailureView::Rejected(
                    RejectionView::TokenMismatch { expected: expected, found: token },
                ),
            )
        },
    }
}

/// What expecting a value as the next token of `input` gives.
pub open spec fn value_expected<U: TokenValue>(input: Seq<u8>) -> Result<U, FailureView> {
    match text_outcome(input, whitespace()) {
        Err(fatal) => Err(FailureView::Fatal(fatal)),
        Ok(None) => Err(FailureView::Rejected(RejectionView::UnexpectedEof)),
        Ok(Some(token)) => match U::parsed(encode_utf8(token)) {
            Some(value) => Ok(value),
            None => Err(FailureView::Rejected(RejectionView::UnexpectedToken { token: token })),
        },
    }
}

/// What a value gives once the condition on it was checked: the value where
/// the check passed, a rejection with the check's detail where it did not.
pub open spec fn value_judged<U: TokenValue>(value: U, check: Result<(), Seq<char>>) -> Result<
    U,
    FailureView,
> {
    match check {
        Ok(_) => Ok(value),
        Err(detail) => Err(
            FailureView::Rejected(
                RejectionView::UnexpectedValue { value: value.rendered(), detail: detail },
            ),
        ),
    }
}

/// The detail that tells which value was expected.
pub open spec fn expected_value_detail(expected: Seq<char>) -> Seq<char> {
    "\"expected value: \\\""@ + expected + "\\\"\""@
}

/// The detail that goes with a value that was excluded.
pub open spec fn excluded_value_detail() -> Seq<char> {
    "()"@
}

/// What expecting a value equal to `expected` as the next token gives.
pub open spec fn equal_expected<U: TokenValue>(input: Seq<u8>, expected: U) -> Result<
    U,
    FailureView,
> {
    match value_expected::<U>(input) {
        Err(failure) => Err(failure),
        Ok(value) => if value == expected {
            Ok(value)
        } else {
            value_judged(value, Err(expected_value_detail(expected.rendered())))
        },
    }
}

/// What expecting a value other than `excluded` as the next token gives.
pub open spec fn unequal_expected<U: TokenValue>(input: Seq<u8>, excluded: U) -> Result<
    U,
    FailureView,
> {
    match value_expected::<U>(input) {
        Err(failure) => Err(failure),
        Ok(value) => if value != excluded {
            Ok(value)
        } else {
            value_judged(value, Err(excluded_value_detail()))
        },
    }
}

/// What expecting the end of `input` gives.
pub open spec fn eof_expected(input: Seq<u8>) -> Result<(), FailureView> {
    match text_outcome(input, whitespace()) {
        Err(fatal) => Err(FailureView::Fatal(fatal)),
        Ok(None) => Ok(()),
        Ok(Some(token)) => Err(FailureView::Rejected(RejectionView::TrailingToken { token: token })),
    }
}

/// Expecting the end of an input that holds no token succeeds and leaves
/// nothing behind; on an empty input it consumes nothing.
pub proof fn lemma_eof_expected_on_exhausted(input: Seq<u8>)
    requires
        !has_content(input, whitespace()),
    ensures
        eof_expected(input) == Ok::<(), FailureView>(()),
        after_token(input).len() == 0,
        input.len() == 0 ==> after_token(input) == input,
        forall|i: int| 0 <= i < input.len() ==> whitespace().contains(#[trigger] input[i]),
{
    lemma_leading_delimiters(input, whitespace());
}

/// Expecting the end of an input that still holds a token fails: with the
/// rejection that names the token, or with a failure of the judge where the
/// token is not valid UTF-8.
pub proof fn lemma_eof_expected_with_token_left(input: Seq<u8>)
    requires
        has_content(input, whitespace()),
    ensures
        eof_expected(input) is Err,
        valid_utf8(content(input, whitespace())) ==> eof_expected(input) == Err::<(), FailureView>(
            FailureView::Rejected(
                RejectionView::TrailingToken {
                    token: decode_utf8(content(input, whitespace())),
                },
            ),
        ),
        !valid_utf8(content(input, whitespace())) ==> eof_expected(input) == Err::<
            (),
            FailureView,
        >(FailureView::Fatal(Fatal::InvalidUtf8)),
{
}

/// The view of a check's result.
pub open spec fn check_view(check: Result<(), String>) -> Result<(), Seq<char>> {
    match check {
        Ok(_) => Ok(()),
        Err(detail) => Err(detail@),
    }
}

/// Hands back `value` where `check` passed, and the rejection that carries the
/// value and the check's detail where it did not.
pub fn judge_value<U: TokenValue>(value: U, check: Result<(), String>) -> (r: Result<U, Failure>)
    ensures
        failure_view(r) == value_judged(value, check_view(check)),
{
    match check {
        Ok(_) => Ok(value),
        Err(detail) => {
            let rendered = value.render();
            Err(Failure::Rejected(Rejection::UnexpectedValue { value: rendered, detail: detail }))
        },
    }
}

/// A reader for judges: typed reads and expectations over a tokenized reader.
pub struct JudgeReader<T: TokenizedRead> {
    inner: T,
}

impl<T: TokenizedRead> JudgeReader<T> {
    /// The tokenized reader that this reader owns.
    pub closed spec fn tokens(&self) -> T {
        self.inner
    }

    /// The bytes that have not been consumed yet.
    pub open spec fn upcoming(&self) -> Seq<u8> {
        self.tokens().upcoming()
    }

    /// A reader over `inner`.
    pub fn new(inner: T) -> (reader: JudgeReader<T>)
        ensures
            reader.tokens() == inner,
            reader.upcoming() == inner.upcoming(),
    {
        JudgeReader { inner }
    }

    /// The tokenized reader that this reader owns.
    pub fn inner_reader(&mut self) -> (inner: &mut T)
        ensures
            *inner == old(self).tokens(),
            final(self).tokens() == *final(inner),
    {
        &mut self.inner
    }

    /// Reads one token. `Ok(None)` says that no more data is there.
    pub fn read_token(&mut self) -> (r: Result<Option<String>, Fatal>)
        ensures
            outcome_view(r) == text_outcome(old(self).upcoming(), whitespace()),
            final(self).upcoming() == after_token(old(self).upcoming()),
    {
        self.inner.read_token()
    }

    /// Reads one token as a value. `Ok(None)` says that no more data is
    /// there; a token that is no value of the type is a failure of the judge.
    pub fn read_token_as<U: TokenValue>(&mut self) -> (r: Result<Option<U>, Fatal>)
        ensures
            r == value_read::<U>(old(self).upcoming()),
            final(self).upcoming() == after_token(old(self).upcoming()),
    {
        match self.inner.read_token() {
            Err(fatal) => Err(fatal),
            Ok(None) => Ok(None),
            Ok(Some(token)) => match U::parse(token.as_str().as_bytes()) {
                Some(value) => Ok(Some(value)),
                None => Err(Fatal::MalformedToken),
            },
        }
    }

    /// Expects the next token to be the text `expected`, with or without
    /// regard to the case of ASCII letters, and hands the token back.
    pub fn expect_token(&mut self, expected: &str, ignore_case: bool) -> (r: Result<String, Failure>)
        ensures
            text_view(r) == token_expected(old(self).upcoming(), expected@, ignore_case),
            final(self).upcoming() == after_token(old(self).upcoming()),
    {
        match self.inner.read_token() {
            Err(fatal) => Err(Failure::Fatal(fatal)),
            Ok(None) => Err(Failure::Rejected(Rejection::UnexpectedEof)),
            Ok(Some(token)) => {
                if text_equal(token.as_str(), expected, ignore_case) {
                    Ok(token)
                } else {
                    Err(
                        Failure::Rejected(
                            Rejection::TokenMismatch {
                                expected: String::from_str(expected),
                                found: token,
                            },
                        ),
                    )
                }
            },
        }
    }

    /// Expects the next token to stand for a value of the type.
    pub fn expect_type<U: TokenValue>(&mut self) -> (r: Result<U, Failure>)
        ensures
            failure_view(r) == value_expected::<U>(old(self).upcoming()),
            final(self).upcoming() == after_token(old(self).upcoming()),
    {
        match self.inner.read_token() {
            Err(fatal) => Err(Failure::Fatal(fatal)),
            Ok(None) => Err(Failure::Rejected(Rejection::UnexpectedEof)),
            Ok(Some(token)) => match U::parse(token.as_str().as_bytes()) {
                Some(value) => Ok(value),
                None => Err(Failure::Rejected(Rejection::UnexpectedToken { token: token })),
            },
        }
    }

    /// Expects the next token to stand for a value of the type that passes
    /// `predicate`. Where the predicate fails, its detail goes into the rejection.
    pub fn expect_value_that<U: TokenValue, F: FnOnce(&U) -> Result<(), String>>(
        &mut self,
        predicate: F,
    ) -> (r: Result<U, Failure>)
        requires
            forall|value: U| predicate.requires((&value,)),
        ensures
            final(self).upcoming() == after_token(old(self).upcoming()),
            match value_expected::<U>(old(self).upcoming()) {
                Err(failure) => failure_view(r) == Err::<U, FailureView>(failure),
                Ok(value) => exists|check: Result<(), String>|
                    predicate.ensures((&value,), check) && failure_view(r) == value_judged(
                        value,
                        check_view(check),
                    ),
            },
    {
        match self.expect_type::<U>() {
            Err(failure) => Err(failure),
            Ok(value) => {
                let check = predicate(&value);
                judge_value(value, check)
            },
        }
    }

    /// Expects the next token to stand for a value equal to `value`.
    pub fn expect_eq<U: TokenValue>(&mut self, value: &U) -> (r: Result<U, Failure>)
        ensures
            failure_view(r) == equal_expected(old(self).upcoming(), *value),
            final(self).upcoming() == after_token(old(self).upcoming()),
    {
        match self.expect_type::<U>() {
            Err(failure) => Err(failure),
            Ok(found) => {
                if found.equals(value) {
                    Ok(found)
                } else {
                    let detail = String::from_str("\"expected value: \\\"").concat(
                        value.render().as_str(),
                    ).concat("\\\"\"");
                    judge_value(found, Err(detail))
                }
            },
        }
    }

    /// Expects the next token to stand for a value other than `value`.
    pub fn expect_ne<U: TokenValue>(&mut self, value: &U) -> (r: Result<U, Failure>)
        ensures
            failure_view(r) == unequal_expected(old(self).upcoming(), *value),
            final(self).upcoming() == after_token(old(self).upcoming()),
    {
        match self.expect_type::<U>() {
            Err(failure) => Err(failure),
            Ok(found) => {
                if !found.equals(value) {
                    Ok(found)
                } else {
                    judge_value(found, Err(String::from_str("()")))
                }
            },
        }
    }

    /// Expects that no token is left.
    pub fn expect_eof(&mut self) -> (r: Result<(), Failure>)
        ensures
            failure_view(r) == eof_expected(old(self).upcoming()),
            final(self).upcoming() == after_token(old(self).upcoming()),
    {
        match self.inner.read_token() {
            Err(fatal) => Err(Failure::Fatal(fatal)),
            Ok(None) => Ok(()),
            Ok(Some(token)) => Err(Failure::Rejected(Rejection::TrailingToken { token: token })),
        }
    }
}

} // verus!
