//! Errors produced while validating IRC messages.
use vstd::prelude::*;
use vstd::string::StringExecFns;
use crate::io_errors::{decimal, usize_text};

verus! {

/// An error produced when an IRC message does not have the expected shape.
#[derive(Debug, PartialEq, Eq)]
pub enum MessageError {
    /// The message had a different command than the one expected
    InvalidCommand {
        /// The expected command
        expected: String,
        /// The command that was found
        got: String,
    },
    /// The message had no user prefix (nickname)
    ExpectedNick,
    /// The message did not have an argument at this position
    ExpectedArg {
        /// The position of the missing argument
        pos: usize,
    },
    /// The message had no trailing data
    ExpectedData,
    /// The message was missing a required tag
    ExpectedTag {
        /// The name of the missing tag
        name: String,
    },
    /// The input ended before a complete message (`\r\n`) was found
    IncompleteMessage {
        /// The position that was reached
        pos: usize,
    },
    /// The message was empty
    EmptyMessage,
}

impl MessageError {
    /// The text that describes this error.
    pub open spec fn spec_text(&self) -> Seq<char> {
        match self {
            MessageError::InvalidCommand { expected, got } => "invalid command. expected '"@ + expected@
                + "' got '"@ + got@ + "'"@,
            MessageError::ExpectedNick => "expected a nickname attached to the message"@,
            MessageError::ExpectedArg { pos } => "expected arg at position: "@ + decimal(*pos as nat),
            MessageError::ExpectedData => "expected a data segment in the message"@,
            MessageError::ExpectedTag { name } => "expected tag '"@ + name@ + "'"@,
            MessageError::IncompleteMessage { pos } => "incomplete message starting at: "@ + decimal(*pos as nat),
            MessageError::EmptyMessage => "no message could be parsed"@,
        }
    }

    /// The text that describes this error.
    pub fn to_string(&self) -> (r: String)
        ensures
            r@ == self.spec_text(),
    {
        match self {
            MessageError::InvalidCommand { expected, got } => {
                let mut s = String::from_str("invalid command. expected '");
                s.append(expected.as_str());
                s.append("' got '");
                s.append(got.as_str());
                s.append("'");
                s
            },
            MessageError::ExpectedNick => String::from_str("expected a nickname attached to the message"),
            MessageError::ExpectedArg { pos } => {
                let mut s = String::from_str("expected arg at position: ");
                s.append(usize_text(*pos).as_str());
                s
            },
            MessageError::ExpectedData => String::from_str("expected a data segment in the message"),
            MessageError::ExpectedTag { name } => {
                let mut s = String::from_str("expected tag '");
                s.append(name.as_str());
                s.append("'");
                s
            },
            MessageError::IncompleteMessage { pos } => {
                let mut s = String::from_str("incomplete message starting at: ");
                s.append(usize_text(*pos).as_str());
                s
            },
            MessageError::EmptyMessage => String::from_str("no message could be parsed"),
        }
    }
}

/// The error produced when an IRC message is invalid.
pub type InvalidMessage = MessageError;

} // verus!
