//! Errors of the main loop.
use vstd::prelude::*;
use vstd::string::StringExecFns;
use crate::io_errors::{io_error_text, utf8_error_text};
use crate::irc::error::MessageError;
use crate::decoder::error::DecodeError;

verus! {

/// An error returned by helpers in the runner module.
#[derive(Debug)]
pub enum Error {
    /// An I/O error occured
    Io(std::io::Error),
    /// Invalid utf-8 was parsed (either you sent invalid utf-8, or Twitch did and we read it).
    InvalidUtf8(std::str::Utf8Error),
    /// We could not parse a message -- this should never happen
    ParsingFailure(MessageError),
    /// You requested a capability and Twitch rejected it
    InvalidCap {
        /// The capability name
        cap: String,
    },
    /// You provided an invalid OAuth token
    BadPass,
    /// Your connection timed out.
    TimedOut,
    /// Twitch restarted the server, you should reconnect.
    ShouldReconnect,
    /// A line read was longer than the 65535 bytes that message positions can address
    LineTooLong,
    /// An unexpected EOF was found -- this means the connectionc losed abnormally.
    UnexpectedEof,
    /// An EOF was read -- this isn't a real error
    Eof,
}

impl From<DecodeError> for Error {
    fn from(err: DecodeError) -> (r: Self) {
        match err {
            DecodeError::Io(err) => Error::Io(err),
            DecodeError::InvalidUtf8(err) => Error::InvalidUtf8(err),
            DecodeError::ParseError(err) => Error::ParsingFailure(err),
            DecodeError::LineTooLong => Error::LineTooLong,
            DecodeError::Eof => Error::UnexpectedEof,
        }
    }
}

impl vstd::std_specs::convert::FromSpecImpl<DecodeError> for Error {
    open spec fn obeys_from_spec() -> bool {
        true
    }

    open spec fn from_spec(err: DecodeError) -> Self {
        match err {
            DecodeError::Io(err) => Error::Io(err),
            DecodeError::InvalidUtf8(err) => Error::InvalidUtf8(err),
            DecodeError::ParseError(err) => Error::ParsingFailure(err),
            DecodeError::LineTooLong => Error::LineTooLong,
            DecodeError::Eof => Error::UnexpectedEof,
        }
    }
}

impl From<MessageError> for Error {
    fn from(err: MessageError) -> (r: Self) {
        Error::ParsingFailure(err)
    }
}

impl vstd::std_specs::convert::FromSpecImpl<MessageError> for Error {
    open spec fn obeys_from_spec() -> bool {
        true
    }

    open spec fn from_spec(err: MessageError) -> Self {
        Error::ParsingFailure(err)
    }
}

impl From<std::io::Error> for Error {
    fn from(err: std::io::Error) -> (r: Self) {
        Error::Io(err)
    }
}

impl vstd::std_specs::convert::FromSpecImpl<std::io::Error> for Error {
    open spec fn obeys_from_spec() -> bool {
        true
    }

    open spec fn from_spec(err: std::io::Error) -> Self {
        Error::Io(err)
    }
}

impl Error {
    /// The text that describes this error; that of an I/O or UTF-8 error follows its prefix.
    pub fn to_string(&self) -> (r: String)
        ensures
            match self {
                Error::Io(_) => exists|t: Seq<char>| r@ == "io error: "@ + t,
                Error::InvalidUtf8(_) => exists|t: Seq<char>| r@ == "invalid utf-8 while parsing: "@ + t,
                Error::ParsingFailure(e) => r@ == "could not parse message: "@ + e.spec_text(),
                Error::InvalidCap { cap } => r@ == "request capability '"@ + cap@ + "' was not acknowledged"@,
                Error::BadPass => r@ == "an invalid oauth token was provided"@,
                Error::TimedOut => r@ == "your connection timed out"@,
                Error::ShouldReconnect => r@ == "you should reconnect. Twitch restarted the server"@,
                Error::LineTooLong => r@ == "a line was too long to be parsed"@,
                Error::UnexpectedEof => r@ == "reached an unexpected EOF"@,
                Error::Eof => r@ == "reach an expected EOF"@,
            },
    {
        match self {
            Error::Io(e) => {
                let mut s = String::from_str("io error: ");
                let t = io_error_text(e);
                s.append(t.as_str());
                s
            },
            Error::InvalidUtf8(e) => {
                let mut s = String::from_str("invalid utf-8 while parsing: ");
                let t = utf8_error_text(e);
                s.append(t.as_str());
                s
            },
            Error::ParsingFailure(e) => {
                let mut s = String::from_str("could not parse message: ");
                s.append(e.to_string().as_str());
                s
            },
            Error::InvalidCap { cap } => {
                let mut s = String::from_str("request capability '");
                s.append(cap.as_str());
                s.append("' was not acknowledged");
                s
            },
            Error::BadPass => String::from_str("an invalid oauth token was provided"),
            Error::TimedOut => String::from_str("your connection timed out"),
            Error::ShouldReconnect => String::from_str("you should reconnect. Twitch restarted the server"),
            Error::LineTooLong => String::from_str("a line was too long to be parsed"),
            Error::UnexpectedEof => String::from_str("reached an unexpected EOF"),
            Error::Eof => String::from_str("reach an expected EOF"),
        }
    }
}

} // verus!
