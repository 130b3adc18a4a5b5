//! The error reported when text or bytes do not describe an identifier.

use crate::decimal::{decimal, push_decimal};
use vstd::prelude::*;
use vstd::string::StringExecFns;

verus! {

/// Why an identifier could not be read.
#[derive(Debug, PartialEq)]
#[non_exhaustive]
pub enum Error {
    /// The input was malformed or described the wrong number of bytes; the
    /// field tells which, in words.
    Decoding(String),
}

impl Clone for Error {
    fn clone(&self) -> (copy: Error)
        ensures
            copy == *self,
    {
        match self {
            Error::Decoding(message) => Error::Decoding(message.clone()),
        }
    }
}

/// What a decoding error says about bytes of the wrong length: the length
/// that was expected and the length that was received, both in decimal.
pub open spec fn length_message(expected: nat, actual: nat) -> Seq<char> {
    "expected len to be "@ + decimal(expected) + ", but was "@ + decimal(actual)
}

/// The answer of a decoder that succeeded with `bytes`.
pub open spec fn decoded_to(bytes: Seq<u8>) -> Result<Seq<u8>, Seq<char>> {
    Ok(bytes)
}

/// A decoder's answer, with the bytes or the words it holds taken by
/// their views.
pub open spec fn decoded_view(decoded: Result<Vec<u8>, String>) -> Result<Seq<u8>, Seq<char>> {
    match decoded {
        Ok(bytes) => Ok(bytes@),
        Err(refusal) => Err(refusal@),
    }
}

/// What a text too long to be handed to a decoder is refused with.
pub open spec fn overlong_message() -> Seq<char> {
    "input is too long"@
}

impl Error {
    /// The text carried by the error.
    pub open spec fn text(self) -> Seq<char> {
        match self {
            Error::Decoding(message) => message@,
        }
    }

    /// The error for a text that is too long to be handed to a decoder.
    pub fn overlong() -> (error: Error)
        ensures
            error.text() == overlong_message(),
    {
        Error::Decoding(String::from_str("input is too long"))
    }

    /// The error for `actual` bytes where `expected` were required.
    pub fn wrong_length(expected: usize, actual: usize) -> (error: Error)
        ensures
            error.text() == length_message(expected as nat, actual as nat),
    {
        let mut message = String::from_str("expected len to be ");
        push_decimal(&mut message, expected as u64);
        message.append(", but was ");
        push_decimal(&mut message, actual as u64);
        Error::Decoding(message)
    }

    /// The error in words.
    pub fn message(&self) -> (text: String)
        ensures
            text@ == self.text(),
    {
        match self {
            Error::Decoding(message) => message.clone(),
        }
    }
}

} // verus!
