//! How a judged run ends: with a verdict, or with a failure of the judge itself.

use vstd::prelude::*;

verus! {

/// Exit code of a process that ends with an accepted verdict.
pub const EXIT_ACCEPTED: i32 = 0;

/// Exit code of a process that ends with a rejected verdict.
pub const EXIT_REJECTED: i32 = -1;

/// A failure of the judge itself, as opposed to a verdict on the candidate.
#[derive(Debug, Clone, Copy, PartialEq, Eq, Structural)]
pub enum Fatal {
    /// The bytes of a token or line are not valid UTF-8.
    InvalidUtf8,
    /// A token that was read outside an expectation does not parse.
    MalformedToken,
    /// A handle was used that the registry does not hold.
    UnknownHandle,
    /// A text with its terminator takes more bytes than a size can say.
    ValueTooLong,
}

/// Why a candidate's output is rejected.
#[derive(Debug, PartialEq, Eq)]
pub enum Rejection {
    /// A token was expected and the input had ended.
    UnexpectedEof,
    /// The token is not the expected text.
    TokenMismatch { expected: String, found: String },
    /// The token does not stand for a value of the expected type.
    UnexpectedToken { token: String },
    /// The value read does not meet the condition put on it.
    UnexpectedValue { value: String, detail: String },
    /// The end of the input was expected and a token was found.
    TrailingToken { token: String },
}

/// A rejection with its texts as sequences of characters.
pub enum RejectionView {
    UnexpectedEof,
    TokenMismatch { expected: Seq<char>, found: Seq<char> },
    UnexpectedToken { token: Seq<char> },
    UnexpectedValue { value: Seq<char>, detail: Seq<char> },
    TrailingToken { token: Seq<char> },
}

impl View for Rejection {
    type V = RejectionView;

    open spec fn view(&self) -> RejectionView {
        match self {
            Rejection::UnexpectedEof => RejectionView::UnexpectedEof,
            Rejection::TokenMismatch { expected, found } => RejectionView::TokenMismatch {
                expected: expected@,
                found: found@,
            },
            Rejection::UnexpectedToken { token } => RejectionView::UnexpectedToken { token: token@ },
            Rejection::UnexpectedValue { value, detail } => RejectionView::UnexpectedValue {
                value: value@,
                detail: detail@,
            },
            Rejection::TrailingToken { token } => RejectionView::TrailingToken { token: token@ },
        }
    }
}

impl RejectionView {
    /// The message that tells of the rejection.
    pub open spec fn message(self) -> Seq<char> {
        match self {
            RejectionView::UnexpectedEof => "Unexpected EOF."@,
            RejectionView::TokenMismatch { expected, found } => "expect \""@ + expected
                + "\", found \""@ + found + "\""@,
            RejectionView::UnexpectedToken { token } => "Unexpected token: \""@ + token + "\""@,
            RejectionView::UnexpectedValue { value, detail } => "Unexpected value: \""@ + value
                + "\": "@ + detail,
            RejectionView::TrailingToken { token } => "EOF expected, but found \""@ + token
                + "\""@,
        }
    }
}

impl Rejection {
    /// The message that tells of the rejection.
    pub fn message(&self) -> (text: String)
        ensures
            text@ == self@.message(),
    {
        match self {
            Rejection::UnexpectedEof => String::from_str("Unexpected EOF."),
            Rejection::TokenMismatch { expected, found } => String::from_str("expect \"").concat(
                expected.as_str(),
            ).concat("\", found \"").concat(found.as_str()).concat("\""),
            Rejection::UnexpectedToken { token } => String::from_str("Unexpected token: \"").concat(
                token.as_str(),
            ).concat("\""),
            Rejection::UnexpectedValue { value, detail } => String::from_str(
                "Unexpected value: \"",
            ).concat(value.as_str()).concat("\": ").concat(detail.as_str()),
            Rejection::TrailingToken { token } => String::from_str(
                "EOF expected, but found \"",
            ).concat(token.as_str()).concat("\""),
        }
    }
}

/// Why an expectation did not hand back a value.
#[derive(Debug, PartialEq, Eq)]
pub enum Failure {
    /// The candidate's output is rejected.
    Rejected(Rejection),
    /// The judge itself failed.
    Fatal(Fatal),
}

/// A failure with its texts as sequences of characters.
pub enum FailureView {
    Rejected(RejectionView),
    Fatal(Fatal),
}

impl View for Failure {
    type V = FailureView;

    open spec fn view(&self) -> FailureView {
        match self {
            Failure::Rejected(rejection) => FailureView::Rejected(rejection@),
            Failure::Fatal(fatal) => FailureView::Fatal(*fatal),
        }
    }
}

/// The final outcome of a judged run.
#[derive(Debug, PartialEq, Eq)]
pub enum Verdict {
    /// The candidate is accepted, with an optional message.
    Accepted(Option<String>),
    /// The candidate is rejected, with the reason.
    Rejected(String),
}

/// A verdict with its message as a sequence of characters.
pub enum VerdictView {
    Accepted(Option<Seq<char>>),
    Rejected(Seq<char>),
}

impl VerdictView {
    /// The line that goes to the diagnostic stream.
    pub open spec fn diagnostic(self) -> Seq<char> {
        match self {
            VerdictView::Accepted(None) => "Accepted."@,
            VerdictView::Accepted(Some(message)) => "Accepted: "@ + message,
            VerdictView::Rejected(message) => "Rejected: "@ + message,
        }
    }

    /// The code that the process exits with.
    pub open spec fn exit_code(self) -> i32 {
        match self {
            VerdictView::Accepted(_) => EXIT_ACCEPTED,
            VerdictView::Rejected(_) => EXIT_REJECTED,
        }
    }
}

impl View for Verdict {
    type V = VerdictView;

    open spec fn view(&self) -> VerdictView {
        match self {
            Verdict::Accepted(None) => VerdictView::Accepted(None),
            Verdict::Accepted(Some(message)) => VerdictView::Accepted(Some(message@)),
            Verdict::Rejected(message) => VerdictView::Rejected(message@),
        }
    }
}

impl Verdict {
    /// The line that goes to the diagnostic stream.
    pub fn diagnostic(&self) -> (line: String)
        ensures
            line@ == self@.diagnostic(),
    {
        match self {
            Verdict::Accepted(None) => String::from_str("Accepted."),
            Verdict::Accepted(Some(message)) => String::from_str("Accepted: ").concat(
                message.as_str(),
            ),
            Verdict::Rejected(message) => String::from_str("Rejected: ").concat(message.as_str()),
        }
    }

    /// The code that the process exits with.
    pub fn exit_code(&self) -> (code: i32)
        ensures
            code == self@.exit_code(),
            code == EXIT_ACCEPTED <==> self is Accepted,
    {
        match self {
            Verdict::Accepted(_) => EXIT_ACCEPTED,
            Verdict::Rejected(_) => EXIT_REJECTED,
        }
    }
}

/// The accepted verdict, with an optional message.
pub fn accept(message: Option<&str>) -> (verdict: Verdict)
    ensures
        verdict@ == (match message {
            Some(text) => VerdictView::Accepted(Some(text@)),
            None => VerdictView::Accepted(None),
        }),
{
    match message {
        Some(text) => Verdict::Accepted(Some(String::from_str(text))),
        None => Verdict::Accepted(None),
    }
}

/// The rejected verdict. The message says why the solution is rejected.
pub fn reject(message: &str) -> (verdict: Verdict)
    ensures
        verdict@ == VerdictView::Rejected(message@),
{
    Verdict::Rejected(String::from_str(message))
}

/// The verdict that a rejection leads to: rejected, with the rejection's message.
pub fn verdict_of(rejection: &Rejection) -> (verdict: Verdict)
    ensures
        verdict@ == VerdictView::Rejected(rejection@.message()),
{
    Verdict::Rejected(rejection.message())
}

} // verus!
