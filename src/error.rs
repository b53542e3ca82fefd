use crate::{node_kind_name, NodeKind};
use vstd::prelude::*;

verus! {

/// Why a tree did not match the shape that was asked of it.
#[derive(Clone, Debug, PartialEq)]
pub enum Error {
    /// A node or a field was requested but none remained.
    NodesExhausted,
    /// A unit was requested but a node or a non-empty text was found.
    ExpectedUnit(NodeKind),
    /// A sequence was requested of a text leaf.
    ExpectedArray(NodeKind),
    /// A map or struct was requested of a text leaf.
    ExpectedMap(NodeKind),
    /// An enum was requested of a text leaf.
    ExpectedEnum(NodeKind),
    /// The `$text` field was requested of a node without text.
    ExpectedText(NodeKind),
    /// A scalar literal did not parse; carries the parser's message.
    ParseError(String),
    /// A failure raised by the consumer of the values.
    Other(String),
}

/// The message of an error, as shown to a user.
pub open spec fn error_message(e: Error) -> Seq<char> {
    match e {
        Error::Other(m) => m@,
        Error::NodesExhausted => "nodes exhausted"@,
        Error::ParseError(m) => "parse error: "@ + m@,
        Error::ExpectedUnit(k) => "expected unit, found "@ + node_kind_name(k),
        Error::ExpectedArray(k) => "expected array, found "@ + node_kind_name(k),
        Error::ExpectedMap(k) => "expected map, found "@ + node_kind_name(k),
        Error::ExpectedEnum(k) => "expected enum, found "@ + node_kind_name(k),
        Error::ExpectedText(k) => "expected text, found "@ + node_kind_name(k),
    }
}

impl Error {
    /// An error raised by the consumer, with its own message.
    pub fn custom(msg: String) -> (r: Error)
        ensures
            r == Error::Other(msg),
    {
        Error::Other(msg)
    }

    /// The message of this error.
    pub fn message(&self) -> (r: String)
        ensures
            r@ == error_message(*self),
    {
        match self {
            Error::Other(m) => m.clone(),
            Error::NodesExhausted => String::from_str("nodes exhausted"),
            Error::ParseError(m) => String::from_str("parse error: ").concat(m.as_str()),
            Error::ExpectedUnit(k) => String::from_str("expected unit, found ").concat(
                k.message().as_str(),
            ),
            Error::ExpectedArray(k) => String::from_str("expected array, found ").concat(
                k.message().as_str(),
            ),
            Error::ExpectedMap(k) => String::from_str("expected map, found ").concat(
                k.message().as_str(),
            ),
            Error::ExpectedEnum(k) => String::from_str("expected enum, found ").concat(
                k.message().as_str(),
            ),
            Error::ExpectedText(k) => String::from_str("expected text, found ").concat(
                k.message().as_str(),
            ),
        }
    }
}

} // verus!
