//! The ways a lookup can fail.
use vstd::prelude::*;
use vstd::string::*;
use crate::numerals::{decimal_text, int_text};

verus! {

/// Why no comic was produced.
#[derive(Clone, Debug, PartialEq, Eq)]
pub enum Error {
    /// The requested number is not positive, or is beyond the latest comic.
    InvalidNumber(i32),
    /// The transport failed; the text is its diagnostic.
    RequestError(String),
    /// A response arrived but a required field was absent or malformed; the text
    /// names the field.
    DecodeError(String),
}

/// The mathematical value of an [`Error`].
pub enum ErrorView {
    InvalidNumber(i32),
    RequestError(Seq<char>),
    DecodeError(Seq<char>),
}

impl View for Error {
    type V = ErrorView;

    open spec fn view(&self) -> ErrorView {
        match self {
            Error::InvalidNumber(n) => ErrorView::InvalidNumber(*n),
            Error::RequestError(d) => ErrorView::RequestError(d@),
            Error::DecodeError(f) => ErrorView::DecodeError(f@),
        }
    }
}

/// A requested number that is out of range.
#[derive(Clone, Copy, Debug, PartialEq, Eq, Structural)]
pub struct Number {
    pub number: i32,
}

impl Number {
    pub fn new(num: i32) -> (r: Number)
        ensures
            r.number == num,
    {
        Number { number: num }
    }

    /// The text `Invalid number: ` followed by the number.
    pub fn message(&self) -> (r: String)
        ensures
            r@ == "Invalid number: "@ + int_text(self.number as int),
    {
        let mut s = String::from_str("Invalid number: ");
        let digits = decimal_text(self.number);
        s.append(digits.as_str());
        s
    }
}

/// A failed request, identified by the number it asked for.
#[derive(Clone, Copy, Debug, PartialEq, Eq, Structural)]
pub struct Request {
    pub number: i32,
}

impl Request {
    pub fn new(num: i32) -> (r: Request)
        ensures
            r.number == num,
    {
        Request { number: num }
    }

    /// The number, as decimal text.
    pub fn message(&self) -> (r: String)
        ensures
            r@ == int_text(self.number as int),
    {
        decimal_text(self.number)
    }
}

} // verus!
