//! Errors of the handshake.
use vstd::prelude::*;
use vstd::string::StringExecFns;
use crate::io_errors::{io_error_text, escape_debug_text, debug_escaped};
use crate::decoder::error::DecodeError;

verus! {

/// Why the server refused the registration.
#[derive(Debug, Clone, PartialEq, Eq)]
pub enum CheckError {
    /// A requested capability was refused
    InvalidCap(String),
    /// The OAuth token was refused
    BadPass,
    /// The server is restarting
    ShouldReconnect,
}

/// An error returned by one of the various `wait_until_ready()` methods
#[derive(Debug)]
pub enum HandshakeError {
    /// An invalid OAuth token was provided
    BadPass,
    /// The server restarted, you should reconnect
    ShouldReconnect,
    /// You provided an invalid capability
    InvalidCapability(String),
    /// Could not encode the required messages to the writer
    Encode(std::io::Error),
    /// Could not decode messages from the reader
    Decode(DecodeError),
}

impl HandshakeError {
    /// The text that describes this error; that of an I/O error is its own.
    pub fn to_string(&self) -> (r: String)
        ensures
            match self {
                HandshakeError::BadPass => r@ == "an invalid oauth token was provided"@,
                HandshakeError::ShouldReconnect => r@ == "you should reconnect. Twitch restarted the server"@,
                HandshakeError::InvalidCapability(cap) => r@ == "an invalid capability was provided '"@
                    + debug_escaped(cap@) + "'"@,
                HandshakeError::Encode(_) => true,
                HandshakeError::Decode(e) => match e {
                    DecodeError::Io(_) => exists|t: Seq<char>| r@ == "io error: "@ + t,
                    DecodeError::InvalidUtf8(_) => exists|t: Seq<char>| r@ == "invalid utf8: "@ + t,
                    DecodeError::ParseError(m) => r@ == "parse error: "@ + m.spec_text(),
                    DecodeError::LineTooLong => r@ == "a line was too long to be parsed"@,
                    DecodeError::Eof => r@ == "end of file reached"@,
                },
            },
    {
        match self {
            HandshakeError::BadPass => String::from_str("an invalid oauth token was provided"),
            HandshakeError::ShouldReconnect => String::from_str("you should reconnect. Twitch restarted the server"),
            HandshakeError::InvalidCapability(cap) => {
                let mut s = String::from_str("an invalid capability was provided '");
                let t = escape_debug_text(cap.as_str());
                s.append(t.as_str());
                s.append("'");
                s
            },
            HandshakeError::Encode(e) => io_error_text(e),
            HandshakeError::Decode(e) => e.to_string(),
        }
    }

    /// The handshake error for a refused registration.
    pub fn from_check_err(err: CheckError) -> (r: Self)
        ensures
            match err {
                CheckError::InvalidCap(cap) => r matches HandshakeError::InvalidCapability(c) && c == cap,
                CheckError::BadPass => r matches HandshakeError::BadPass,
                CheckError::ShouldReconnect => r matches HandshakeError::ShouldReconnect,
            },
    {
        match err {
            CheckError::InvalidCap(cap) => HandshakeError::InvalidCapability(cap),
            CheckError::BadPass => HandshakeError::BadPass,
            CheckError::ShouldReconnect => HandshakeError::ShouldReconnect,
        }
    }
}

impl From<DecodeError> for HandshakeError {
    fn from(err: DecodeError) -> (r: Self) {
        HandshakeError::Decode(err)
    }
}

impl vstd::std_specs::convert::FromSpecImpl<DecodeError> for HandshakeError {
    open spec fn obeys_from_spec() -> bool {
        true
    }

    open spec fn from_spec(err: DecodeError) -> Self {
        HandshakeError::Decode(err)
    }
}

} // verus!
