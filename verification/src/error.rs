//! Failures reported by the value codecs.

use vstd::prelude::*;

verus! {

/// Why a value codec rejected its input.
#[derive(Debug, PartialEq, Eq)]
pub enum Error {
    /// The text is not of the form `SIGN? DIGITS UNIT?`.
    InvalidNumber,
    /// The text is of that form, and its value does not fit in 64 signed bits.
    NumberOutOfRange,
    /// The operation token is none of those the codec knows. The token is
    /// carried along, as it stood before the first `:`.
    UnsupportedOperation(String),
    /// An operation that takes no parameter was followed by a `:`.
    UnexpectedParameter,
    /// An operation that takes a parameter was not followed by a `:`.
    MissingParameter,
    /// A range was not given as exactly two numbers.
    MalformedRange,
}

/// The two families of failure that a value codec distinguishes.
#[derive(Debug, Clone, Copy, PartialEq, Eq, Structural)]
pub enum ErrorKind {
    /// A leaf string violates the grammar of its codec.
    Grammar,
    /// A transform that needs an operand was given none.
    MissingParameter,
}

/// The mathematical content of an [`Error`]: the same cases, with text as a
/// sequence of characters.
pub enum ErrorView {
    InvalidNumber,
    NumberOutOfRange,
    UnsupportedOperation(Seq<char>),
    UnexpectedParameter,
    MissingParameter,
    MalformedRange,
}

impl View for Error {
    type V = ErrorView;

    open spec fn view(&self) -> ErrorView {
        match self {
            Error::InvalidNumber => ErrorView::InvalidNumber,
            Error::NumberOutOfRange => ErrorView::NumberOutOfRange,
            Error::UnsupportedOperation(token) => ErrorView::UnsupportedOperation(token@),
            Error::UnexpectedParameter => ErrorView::UnexpectedParameter,
            Error::MissingParameter => ErrorView::MissingParameter,
            Error::MalformedRange => ErrorView::MalformedRange,
        }
    }
}

impl ErrorView {
    /// The family an error belongs to. Only a missing operand is not a
    /// grammar failure.
    pub open spec fn kind(self) -> ErrorKind {
        match self {
            ErrorView::MissingParameter => ErrorKind::MissingParameter,
            _ => ErrorKind::Grammar,
        }
    }
}

impl Error {
    /// The family this error belongs to.
    pub fn kind(&self) -> (k: ErrorKind)
        ensures
            k == self@.kind(),
    {
        match self {
            Error::MissingParameter => ErrorKind::MissingParameter,
            _ => ErrorKind::Grammar,
        }
    }
}

/// The outcome of a decode as contracts speak of it: the value or the error,
/// each by its view.
pub open spec fn outcome<T: View>(r: Result<T, Error>) -> Result<T::V, ErrorView> {
    match r {
        Ok(v) => Ok(v@),
        Err(e) => Err(e@),
    }
}

} // verus!
