//! Errors produced while decoding messages.
use vstd::prelude::*;
use vstd::string::StringExecFns;
use crate::io_errors::{io_error_text, utf8_error_text};
use crate::irc::error::MessageError;

verus! {

#[verifier::external_type_specification]
#[verifier::external_body]
pub struct ExIoError(std::io::Error);

#[verifier::external_type_specification]
#[verifier::external_body]
pub struct ExUtf8Error(std::str::Utf8Error);

/// An error produced by a Decoder.
#[derive(Debug)]
pub enum DecodeError {
    /// An I/O error occurred
    Io(std::io::Error),
    /// Invalid UTF-8 was read.
    InvalidUtf8(std::str::Utf8Error),
    /// Could not parse the IRC message
    ParseError(MessageError),
    /// A line was longer than the 65535 bytes that message positions can address
    LineTooLong,
    /// EOF was reached
    Eof,
}

impl DecodeError {
    /// The text that describes this error; that of an I/O or UTF-8 error follows its prefix.
    pub fn to_string(&self) -> (r: String)
        ensures
            match self {
                DecodeError::Io(_) => exists|t: Seq<char>| r@ == "io error: "@ + t,
                DecodeError::InvalidUtf8(_) => exists|t: Seq<char>| r@ == "invalid utf8: "@ + t,
                DecodeError::ParseError(e) => r@ == "parse error: "@ + e.spec_text(),
                DecodeError::LineTooLong => r@ == "a line was too long to be parsed"@,
                DecodeError::Eof => r@ == "end of file reached"@,
            },
    {
        match self {
            DecodeError::Io(e) => {
                let mut s = String::from_str("io error: ");
                let t = io_error_text(e);
                s.append(t.as_str());
                s
            },
            DecodeError::InvalidUtf8(e) => {
                let mut s = String::from_str("invalid utf8: ");
                let t = utf8_error_text(e);
                s.append(t.as_str());
                s
            },
            DecodeError::ParseError(e) => {
                let mut s = String::from_str("parse error: ");
                s.append(e.to_string().as_str());
                s
            },
            DecodeError::LineTooLong => String::from_str("a line was too long to be parsed"),
            DecodeError::Eof => String::from_str("end of file reached"),
        }
    }
}

} // verus!
