//! The two ways extraction can fail.

use vstd::prelude::*;
use vstd::string::*;

verus! {

/// A failure of single-file extraction or of validation.  There are two
/// kinds only; each carries a message for the caller.
#[derive(Clone, Debug)]
pub enum ParseError {
    /// The file could not be read.
    Io(String),
    /// The text is not well-formed source.
    Syntax(String),
}

/// The mathematical value of a [`ParseError`].
pub enum ParseErrorView {
    Io(Seq<char>),
    Syntax(Seq<char>),
}

impl View for ParseError {
    type V = ParseErrorView;

    open spec fn view(&self) -> ParseErrorView {
        match self {
            ParseError::Io(message) => ParseErrorView::Io(message@),
            ParseError::Syntax(message) => ParseErrorView::Syntax(message@),
        }
    }
}

impl ParseErrorView {
    /// The message of the failure.
    pub open spec fn message(self) -> Seq<char> {
        match self {
            ParseErrorView::Io(message) => message,
            ParseErrorView::Syntax(message) => message,
        }
    }
}

impl ParseError {
    /// The message of the failure.
    pub fn message(&self) -> (r: &str)
        ensures
            r@ == self@.message(),
    {
        match self {
            ParseError::Io(message) => message.as_str(),
            ParseError::Syntax(message) => message.as_str(),
        }
    }

    /// An I/O failure whose message is `detail` behind `prefix`.
    pub fn io(prefix: &str, detail: &str) -> (r: ParseError)
        ensures
            r@ == ParseErrorView::Io(prefix@ + detail@),
    {
        let mut message = String::from_str(prefix);
        message.append(detail);
        ParseError::Io(message)
    }

    /// A syntax failure whose message is `detail` behind `prefix`.
    pub fn syntax(prefix: &str, detail: &str) -> (r: ParseError)
        ensures
            r@ == ParseErrorView::Syntax(prefix@ + detail@),
    {
        let mut message = String::from_str(prefix);
        message.append(detail);
        ParseError::Syntax(message)
    }
}

} // verus!
