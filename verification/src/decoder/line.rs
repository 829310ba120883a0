//! Decoding one line read from a reader.
use vstd::prelude::*;
use vstd::string::StringSliceAdditionalSpecFns;
use vstd::utf8::valid_utf8;
use crate::irc::message::IrcMessage;
use crate::irc::error::MessageError;
use crate::irc::parser::{CR, LF};
use crate::irc::{parse_one, line_break, line_parsed};
use crate::decoder::error::DecodeError;
use crate::text::{find_pair_exec, lemma_find_pair_range};

verus! {

/// `std::str::from_utf8`: the bytes as a string exactly when they are valid UTF-8.
#[verifier::external_body]
pub(crate) fn str_from_utf8(v: &[u8]) -> (r: Result<&str, std::str::Utf8Error>)
    ensures
        r is Ok <==> valid_utf8(v@),
        r matches Ok(s) ==> s.spec_bytes() == v@,
{
    std::str::from_utf8(v)
}

/// What decoding the bytes `b` of one line gives.
pub open spec fn line_decoded(r: Result<IrcMessage, DecodeError>, b: Seq<u8>) -> bool {
    if !valid_utf8(b) {
        r matches Err(DecodeError::InvalidUtf8(_))
    } else if line_break(b, 0) == b.len() {
        r matches Err(DecodeError::ParseError(MessageError::IncompleteMessage { pos })) && pos == 0
    } else if line_break(b, 0) + 2 > u16::MAX {
        r matches Err(DecodeError::LineTooLong)
    } else {
        line_parsed(
            match r {
                Ok(m) => Ok(m),
                Err(DecodeError::ParseError(e)) => Err(e),
                Err(_) => Err(MessageError::IncompleteMessage { pos: 0 }),
            },
            b,
            0,
            line_break(b, 0) + 2,
        )
    }
}

/// Decodes the message at the start of `line`, the bytes read up to and including a `\n`.
///
/// The bytes must be UTF-8 and hold a `\r\n`; the message is the text up to the first one.
pub fn decode_line(line: &[u8]) -> (r: Result<IrcMessage<'_>, DecodeError>)
    ensures
        line_decoded(r, line@),
{
    let s = match str_from_utf8(line) {
        Ok(s) => s,
        Err(e) => return Err(DecodeError::InvalidUtf8(e)),
    };
    let b = s.as_bytes();
    proof {
        lemma_find_pair_range(b@, 0, b@.len() as int, CR, LF);
    }
    let p = find_pair_exec(b, 0, b.len(), CR, LF);
    if p < b.len() && p > 65533 {
        return Err(DecodeError::LineTooLong);
    }
    match parse_one(s) {
        Ok((_, msg)) => Ok(msg),
        Err(e) => Err(DecodeError::ParseError(e)),
    }
}

} // verus!
