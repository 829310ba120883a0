//! IRC message parsing.
//!
//! Twitch's chat is based on IRC, but not strictly conformant to the RFC-1459 and RFC-2812 specs.
//!
//! This provides a _Twitch-flavored_ IRC parser and types.
pub mod error;
pub mod prefix;
pub mod parser;
pub mod message;
pub mod tags;

pub use error::{InvalidMessage, MessageError};
pub use prefix::{Prefix, PrefixIndex};
pub use message::IrcMessage;
pub use tags::{TagIndices, Tags};

use vstd::prelude::*;
use vstd::string::StringSliceAdditionalSpecFns;
use vstd::utf8::is_continuation_byte;
use crate::maybe_owned::MaybeOwned;
use crate::irc::parser::{spec_parse_parts, CR, LF};
use crate::text::{find_pair, lemma_find_pair_range, find_pair_exec, starts_char, lemma_next_char, slice_str};

verus! {

broadcast use vstd::string::group_string_axioms, vstd::utf8::encode_utf8_valid_utf8;

/// A conversion from an [`IrcMessage`] into a typed message.
pub trait FromIrcMessage<'a>: Sized {
    /// Whether `msg` has the shape this type needs.
    spec fn accepts(msg: IrcMessage<'a>) -> bool;

    /// The raw text this was read from.
    spec fn raw_text(self) -> Seq<char>;

    /// This method consumes an `IrcMessage` and tries to produce an instance of `Self`
    fn from_irc(msg: IrcMessage<'a>) -> (r: Result<Self, MessageError>)
        ensures
            r is Ok <==> Self::accepts(msg),
            r matches Ok(m) ==> m.raw_text() == msg.spec_raw(),
    ;

    /// Consumes this wrapper and returns the raw string
    fn into_inner(self) -> (r: MaybeOwned<'a>)
        ensures
            r@ == self.raw_text(),
    ;
}

impl<'a> FromIrcMessage<'a> for IrcMessage<'a> {
    open spec fn accepts(msg: IrcMessage<'a>) -> bool {
        true
    }

    open spec fn raw_text(self) -> Seq<char> {
        self.spec_raw()
    }

    fn from_irc(msg: IrcMessage<'a>) -> (r: Result<Self, MessageError>)
        ensures
            r matches Ok(m) && m == msg,
    {
        Ok(msg)
    }

    fn into_inner(self) -> (r: MaybeOwned<'a>)
        ensures
            r == self.spec_raw_value(),
    {
        IrcMessage::into_inner(self)
    }
}

/// The position of the first `\r\n` in `b` at or after `from`, or the length of `b`.
pub open spec fn line_break(b: Seq<u8>, from: int) -> int {
    find_pair(b, from, b.len() as int, CR, LF)
}

/// What parsing the line `b[from..to]` gives: its parts, or `EmptyMessage`.
pub open spec fn line_parsed(r: Result<IrcMessage, MessageError>, b: Seq<u8>, from: int, to: int) -> bool {
    match spec_parse_parts(b.subrange(from, to)) {
        Some(parts) => r matches Ok(m) && m.raw_bytes() == b.subrange(from, to) && m.spec_parts()
            == parts,
        None => r matches Err(MessageError::EmptyMessage),
    }
}

proof fn lemma_line_break(b: Seq<u8>, from: int)
    requires
        vstd::utf8::valid_utf8(b),
        starts_char(b, from),
    ensures
        from <= line_break(b, from) <= b.len(),
        line_break(b, from) < b.len() ==> line_break(b, from) + 2 <= b.len() && starts_char(
            b,
            line_break(b, from) + 2,
        ) && b[line_break(b, from)] == CR && b[line_break(b, from) + 1] == LF,
{
    lemma_find_pair_range(b, from, b.len() as int, CR, LF);
    let p = line_break(b, from);
    if p < b.len() {
        assert(!is_continuation_byte(b[p + 1]));
        lemma_next_char(b, p + 1);
    }
}

/// Parses the line of `input` between byte offsets `from` and `to`.
fn parse_line<'a>(input: &'a str, from: usize, to: usize) -> (r: Result<IrcMessage<'a>, MessageError>)
    requires
        from <= to,
        to - from <= u16::MAX,
        starts_char(input.spec_bytes(), from as int),
        starts_char(input.spec_bytes(), to as int),
    ensures
        line_parsed(r, input.spec_bytes(), from as int, to as int),
        r matches Ok(m) ==> m.spec_raw_value() is Borrowed,
{
    let line = slice_str(input, from, to);
    IrcMessage::parse(MaybeOwned::Borrowed(line))
}

/// Attempts to parse one message.
///
/// This returns the index of the /next/ message (e.g, 0 for a single message) and the parsed message
pub fn parse_one(input: &str) -> (r: Result<(usize, IrcMessage<'_>), MessageError>)
    requires
        line_break(input.spec_bytes(), 0) < input.spec_bytes().len() ==> line_break(input.spec_bytes(), 0)
            + 2 <= u16::MAX,
    ensures
        ({
            let b = input.spec_bytes();
            let p = line_break(b, 0);
            if p == b.len() {
                r matches Err(MessageError::IncompleteMessage { pos }) && pos == 0
            } else {
                &&& r is Ok ==> r->Ok_0.0 == (if p + 2 == b.len() { 0 } else { p + 2 })
                &&& r is Ok ==> r->Ok_0.1.spec_raw_value() is Borrowed
                &&& line_parsed(
                    match r {
                        Ok((_, m)) => Ok(m),
                        Err(e) => Err(e),
                    },
                    b,
                    0,
                    p + 2,
                )
            }
        }),
{
    let b = input.as_bytes();
    let n = b.len();
    proof {
        lemma_line_break(b@, 0);
    }
    let p = find_pair_exec(b, 0, n, CR, LF);
    if p == n {
        return Err(MessageError::IncompleteMessage { pos: 0 });
    }
    let pos = p + 2;
    let done = pos == n;
    match parse_line(input, 0, pos) {
        Ok(msg) => Ok((if done { 0 } else { pos }, msg)),
        Err(e) => Err(e),
    }
}

/// An iterator over the `\r\n`-terminated messages of a string.
pub struct IrcParserIter<'a> {
    data: &'a str,
    pos: usize,
}

impl<'a> IrcParserIter<'a> {
    #[verifier::type_invariant]
    spec fn inv(self) -> bool {
        &&& self.data.spec_bytes().len() <= u16::MAX
        &&& starts_char(self.data.spec_bytes(), self.pos as int)
    }

    /// The input being iterated over.
    pub closed spec fn spec_data(self) -> Seq<u8> {
        self.data.spec_bytes()
    }

    /// The byte offset of the next message.
    pub closed spec fn spec_pos(self) -> nat {
        self.pos as nat
    }

    /// Iterates over the messages of `data`.
    pub fn new(data: &'a str) -> (r: Self)
        requires
            data.spec_bytes().len() <= u16::MAX,
        ensures
            r.spec_data() == data.spec_bytes(),
            r.spec_pos() == 0,
    {
        IrcParserIter { data, pos: 0 }
    }

    /// The next message, or `None` once the input is used up.
    ///
    /// Input left without a final `\r\n` gives `IncompleteMessage` at its start, and ends the iteration.
    pub fn next_message(&mut self) -> (r: Option<Result<IrcMessage<'a>, MessageError>>)
        ensures
            final(self).spec_data() == old(self).spec_data(),
            ({
                let b = old(self).spec_data();
                let pos = old(self).spec_pos() as int;
                let p = line_break(b, pos);
                if pos == b.len() {
                    r is None && final(self).spec_pos() == pos
                } else if p == b.len() {
                    &&& r matches Some(Err(MessageError::IncompleteMessage { pos: at })) && at == pos
                    &&& final(self).spec_pos() == b.len()
                } else {
                    &&& r matches Some(res) && line_parsed(res, b, pos, p + 2)
                    &&& r matches Some(Ok(m)) ==> m.spec_raw_value() is Borrowed
                    &&& final(self).spec_pos() == p + 2
                }
            }),
    {
        proof {
            use_type_invariant(&*self);
        }
        let b = self.data.as_bytes();
        let n = b.len();
        if self.pos == n {
            return None;
        }
        let start = self.pos;
        proof {
            lemma_line_break(b@, start as int);
        }
        let p = find_pair_exec(b, start, n, CR, LF);
        if p == n {
            self.pos = n;
            return Some(Err(MessageError::IncompleteMessage { pos: start }));
        }
        self.pos = p + 2;
        Some(parse_line(self.data, start, p + 2))
    }
}

/// Parses a string and returns an iterator over the `IrcMessages` in it.
///
/// This borrows from the input string.
pub fn parse(input: &str) -> (r: IrcParserIter<'_>)
    requires
        input.spec_bytes().len() <= u16::MAX,
    ensures
        r.spec_data() == input.spec_bytes(),
        r.spec_pos() == 0,
{
    IrcParserIter::new(input)
}

} // verus!
