//! Decoding messages from chunks of text, such as the items of a stream.
use vstd::prelude::*;
use vstd::utf8::encode_utf8;
use vstd::string::{StringSliceAdditionalSpecFns, StringExecFns};
use std::collections::VecDeque;
use crate::irc::message::IrcMessage;
use crate::irc::error::MessageError;
use crate::irc::parser::{CR, LF};
use crate::irc::{parse_one, line_break, line_parsed};
use crate::decoder::error::DecodeError;
use vstd::utf8::is_continuation_byte;
use crate::irc::parser::spec_parse_parts;
use crate::text::{lemma_find_pair_le, lemma_find_pair_range, lemma_encode_utf8_concat, starts_char, slice_str, find_pair_exec, lemma_next_char};
use crate::commands::{crlf, crlf_bytes};

verus! {

broadcast use vstd::string::group_string_axioms, vstd::utf8::encode_utf8_valid_utf8;

/// `b` with the text from `pos` on made to end in `\r\n`: kept when it does, with a final
/// `\n` replaced, or with `\r\n` added otherwise.
pub open spec fn terminated(b: Seq<u8>, pos: int) -> Seq<u8> {
    let n = b.len() as int;
    if n - pos >= 2 && b[n - 2] == CR && b[n - 1] == LF {
        b
    } else if n - pos >= 1 && b[n - 1] == LF {
        b.drop_last() + crlf()
    } else {
        b + crlf()
    }
}

/// The UTF-8 bytes of `s`.
pub open spec fn string_bytes(s: String) -> Seq<u8> {
    encode_utf8(s@)
}

fn terminate(buf: &mut String, pos: usize)
    requires
        pos <= string_bytes(*old(buf)).len(),
    ensures
        string_bytes(*final(buf)) == terminated(string_bytes(*old(buf)), pos as int),
{
    let b = buf.as_str().as_bytes();
    let n = b.len();
    if n - pos >= 2 && b[n - 2] == CR && b[n - 1] == LF {
    } else if n - pos >= 1 && b[n - 1] == LF {
        proof {
            assert(!is_continuation_byte(b@[n - 1]));
        }
        let head = slice_str(buf.as_str(), 0, n - 1);
        let mut s = String::from_str(head);
        let ghost before = s@;
        s.append("\r\n");
        proof {
            lemma_encode_utf8_concat(before, "\r\n"@);
            assert(b@.subrange(0, n - 1) =~= b@.drop_last());
        }
        *buf = s;
    } else {
        let ghost before = buf@;
        buf.append("\r\n");
        proof {
            lemma_encode_utf8_concat(before, "\r\n"@);
        }
    }
}

} // verus!

verus! {

/// The text a decoder has read and not yet turned into messages.
pub struct Pending {
    buf: String,
    pos: usize,
}

impl Pending {
    #[verifier::type_invariant]
    spec fn inv(self) -> bool {
        &&& self.pos <= string_bytes(self.buf).len()
        &&& starts_char(string_bytes(self.buf), self.pos as int)
    }

    /// The text being read.
    pub closed spec fn spec_buf(self) -> Seq<u8> {
        string_bytes(self.buf)
    }

    /// Where the next message in the text starts; 0 when the text is used up.
    pub closed spec fn spec_pos(self) -> nat {
        self.pos as nat
    }

    /// What decoding the text from `pos` gives: `r` is the message of its first line, or
    /// the error; the text was first made to end in `\r\n`.
    pub open spec fn decoded(r: Result<IrcMessage, DecodeError>, b: Seq<u8>, pos: int) -> bool {
        let t = terminated(b, pos).subrange(pos, terminated(b, pos).len() as int);
        let p = line_break(t, 0);
        if p + 2 > u16::MAX {
            r matches Err(DecodeError::LineTooLong)
        } else {
            match spec_parse_parts(t.subrange(0, p + 2)) {
                Some(parts) => r matches Ok(m) && m.raw_bytes() == t.subrange(0, p + 2) && m.spec_parts()
                    == parts,
                None => r matches Err(DecodeError::ParseError(MessageError::EmptyMessage)),
            }
        }
    }

    /// Where the next message starts after decoding the text from `pos`: after the first
    /// line, or 0 when that line was the last.
    pub open spec fn next_pos(b: Seq<u8>, pos: int) -> int {
        let t = terminated(b, pos).subrange(pos, terminated(b, pos).len() as int);
        let p = line_break(t, 0);
        if p + 2 == t.len() {
            0
        } else {
            pos + p + 2
        }
    }

    /// Decodes the next message of the text.
    ///
    /// The text from the current position is first made to end in `\r\n`. On success the
    /// position moves past the message (to 0 once the text is used up); on an error it stays.
    pub fn parse_message(&mut self) -> (r: Result<IrcMessage<'static>, DecodeError>)
        ensures
            final(self).spec_buf() == terminated(old(self).spec_buf(), old(self).spec_pos() as int),
            Self::decoded(r, old(self).spec_buf(), old(self).spec_pos() as int),
            r is Ok ==> final(self).spec_pos() == Self::next_pos(old(self).spec_buf(), old(self).spec_pos() as int),
            r is Err ==> final(self).spec_pos() == old(self).spec_pos(),
    {
        proof {
            use_type_invariant(&*self);
        }
        let ghost b0 = string_bytes(self.buf);
        let pos = self.pos;
        self.pos = 0;
        let mut buf = String::new();
        std::mem::swap(&mut buf, &mut self.buf);
        terminate(&mut buf, pos);
        let ghost b = string_bytes(buf);
        proof {
            crlf_bytes();
            let n = b0.len() as int;
            if n - pos >= 2 && b0[n - 2] == CR && b0[n - 1] == LF {
            } else if n - pos >= 1 && b0[n - 1] == LF {
                if pos < n - 1 {
                    assert(b[pos as int] == b0[pos as int]);
                } else {
                    assert(b[pos as int] == CR);
                }
            } else {
                if pos < n {
                    assert(b[pos as int] == b0[pos as int]);
                } else {
                    assert(b[pos as int] == CR);
                }
            }
            assert(starts_char(b, pos as int));
        }
        self.buf = buf;
        self.pos = pos;
        let text = slice_str(self.buf.as_str(), pos, self.buf.as_str().as_bytes().len());
        let tb = text.as_bytes();
        let ghost t = tb@;
        proof {
            assert(t =~= b.subrange(pos as int, b.len() as int));
            crlf_bytes();
            lemma_find_pair_le(t, 0, t.len() as int, CR, LF, t.len() - 2);
            lemma_find_pair_range(t, 0, t.len() as int, CR, LF);
        }
        let p = find_pair_exec(tb, 0, tb.len(), CR, LF);
        if p > 65533 {
            return Err(DecodeError::LineTooLong);
        }
        match parse_one(text) {
            Ok((next, msg)) => {
                let owned = msg.into_owned();
                proof {
                    lemma_find_pair_range(t, 0, t.len() as int, CR, LF);
                    assert(!is_continuation_byte(t[p + 1]));
                    lemma_next_char(t, p + 1);
                    assert(p + 2 < t.len() ==> t[p + 2] == b[pos + p + 2]);
                }
                self.pos = if next > 0 { pos + next } else { 0 };
                Ok(owned)
            },
            Err(e) => Err(DecodeError::ParseError(e)),
        }
    }

    /// Replaces the text with `data` and decodes its first message.
    pub fn feed(&mut self, data: String) -> (r: Result<IrcMessage<'static>, DecodeError>)
        ensures
            final(self).spec_buf() == terminated(string_bytes(data), 0),
            Self::decoded(r, string_bytes(data), 0),
            r is Ok ==> final(self).spec_pos() == Self::next_pos(string_bytes(data), 0),
            r is Err ==> final(self).spec_pos() == 0,
    {
        self.pos = 0;
        self.buf = data;
        self.parse_message()
    }

    /// Whether text is left from an earlier read.
    pub fn has_text(&self) -> (r: bool)
        ensures
            r == (self.spec_pos() != 0),
    {
        self.pos != 0
    }

    /// Nothing read yet.
    pub fn new() -> (r: Self)
        ensures
            r.spec_buf() == Seq::<u8>::empty(),
            r.spec_pos() == 0,
    {
        Pending { buf: String::new(), pos: 0 }
    }
}

/// An item of a stream that holds text to decode.
pub trait ReadMessage: Sized {
    /// The text this item holds, if it holds any.
    spec fn spec_text(self) -> Option<Seq<char>>;

    /// The text this item holds, or why there is none.
    fn read_string(self) -> (r: Result<String, DecodeError>)
        ensures
            r is Ok <==> self.spec_text() is Some,
            r matches Ok(s) ==> self.spec_text() == Some(s@),
    ;
}

impl ReadMessage for String {
    open spec fn spec_text(self) -> Option<Seq<char>> {
        Some(self@)
    }

    fn read_string(self) -> (r: Result<String, DecodeError>) {
        Ok(self)
    }
}

impl<T: ReadMessage> ReadMessage for Option<T> {
    open spec fn spec_text(self) -> Option<Seq<char>> {
        match self {
            Some(t) => t.spec_text(),
            None => None,
        }
    }

    /// A missing item is the end of the stream.
    fn read_string(self) -> (r: Result<String, DecodeError>)
        ensures
            self is None ==> r matches Err(DecodeError::Eof),
    {
        match self {
            Some(t) => t.read_string(),
            None => Err(DecodeError::Eof),
        }
    }
}

impl<T: ReadMessage, E: Into<DecodeError>> ReadMessage for Result<T, E> {
    open spec fn spec_text(self) -> Option<Seq<char>> {
        match self {
            Ok(t) => t.spec_text(),
            Err(_) => None,
        }
    }

    /// A failed item gives its error, converted.
    fn read_string(self) -> (r: Result<String, DecodeError>)
        ensures
            self matches Err(e) ==> r matches Err(d) && call_ensures(E::into, (e,), d),
    {
        match self {
            Ok(t) => t.read_string(),
            Err(e) => Err(e.into()),
        }
    }
}

/// A `Decoder` that reads messages out of chunks of text, such as the items of a stream.
pub struct StreamDecoder<IO> {
    stream: IO,
    pending: Pending,
    back_queue: VecDeque<IrcMessage<'static>>,
}

/// What reading without a new item does: a message handed back comes first (and is taken);
/// else the next message of the text left from an earlier item, if any, is decoded.
pub open spec fn buffered_read<IO>(
    old: StreamDecoder<IO>,
    new: StreamDecoder<IO>,
    r: Option<Result<IrcMessage<'static>, DecodeError>>,
) -> bool {
    &&& new.spec_stream() == old.spec_stream()
    &&& old.spec_queue().len() > 0 ==> {
        &&& r == Some(Ok::<IrcMessage<'static>, DecodeError>(old.spec_queue()[0]))
        &&& new.spec_queue() == old.spec_queue().drop_first()
        &&& new.spec_pending() == old.spec_pending()
    }
    &&& old.spec_queue().len() == 0 ==> new.spec_queue() == old.spec_queue()
    &&& old.spec_queue().len() == 0 && old.spec_pending().spec_pos() == 0 ==> {
        &&& r is None
        &&& new.spec_pending() == old.spec_pending()
    }
    &&& old.spec_queue().len() == 0 && old.spec_pending().spec_pos() != 0 ==> {
        let (b, p) = (old.spec_pending().spec_buf(), old.spec_pending().spec_pos() as int);
        &&& r matches Some(x)
        &&& Pending::decoded(x, b, p)
        &&& new.spec_pending().spec_buf() == terminated(b, p)
        &&& x is Ok ==> new.spec_pending().spec_pos() == Pending::next_pos(b, p)
        &&& x is Err ==> new.spec_pending().spec_pos() == p
    }
}

/// What handing `msgs` back does: they wait, in order, behind those handed back before.
pub open spec fn handed_back<IO>(old: StreamDecoder<IO>, new: StreamDecoder<IO>, msgs: Seq<IrcMessage<'static>>) -> bool {
    &&& new.spec_pending() == old.spec_pending()
    &&& new.spec_stream() == old.spec_stream()
    &&& new.spec_queue() == old.spec_queue() + msgs
}

impl<IO> StreamDecoder<IO> {
    /// What has been read and not yet decoded.
    pub closed spec fn spec_pending(self) -> Pending {
        self.pending
    }

    /// The source of the text.
    pub closed spec fn spec_stream(self) -> IO {
        self.stream
    }

    /// Messages handed back, to be read before any new text.
    pub closed spec fn spec_queue(self) -> Seq<IrcMessage<'static>> {
        self.back_queue@
    }

    /// Create a `StreamDecoder` from a stream.
    pub fn new(stream: IO) -> (r: Self)
        ensures
            r.spec_pending().spec_buf() == Seq::<u8>::empty(),
            r.spec_pending().spec_pos() == 0,
            r.spec_queue() == Seq::<IrcMessage<'static>>::empty(),
            r.spec_stream() == stream,
    {
        StreamDecoder { stream, pending: Pending::new(), back_queue: VecDeque::new() }
    }

    /// The source of the text.
    pub fn stream_mut(&mut self) -> (r: &mut IO)
        ensures
            *r == old(self).spec_stream(),
            final(self).spec_pending() == old(self).spec_pending(),
            final(self).spec_queue() == old(self).spec_queue(),
            final(self).spec_stream() == *final(r),
    {
        &mut self.stream
    }

    /// What has been read and not yet decoded.
    pub fn pending_mut(&mut self) -> (r: &mut Pending)
        ensures
            *r == old(self).spec_pending(),
            final(self).spec_stream() == old(self).spec_stream(),
            final(self).spec_queue() == old(self).spec_queue(),
            final(self).spec_pending() == *final(r),
    {
        &mut self.pending
    }

    /// The first message handed back, if any.
    pub fn pop_queued(&mut self) -> (r: Option<IrcMessage<'static>>)
        ensures
            final(self).spec_pending() == old(self).spec_pending(),
            final(self).spec_stream() == old(self).spec_stream(),
            old(self).spec_queue().len() == 0 ==> r is None && final(self).spec_queue() == old(self).spec_queue(),
            old(self).spec_queue().len() > 0 ==> r == Some(old(self).spec_queue()[0]) && final(self).spec_queue()
                == old(self).spec_queue().drop_first(),
    {
        self.back_queue.pop_front()
    }

    /// The next message that needs no new item: one handed back, else the next one of the
    /// text left from an earlier item; `None` when a new item must be read.
    pub fn read_buffered(&mut self) -> (r: Option<Result<IrcMessage<'static>, DecodeError>>)
        ensures
            buffered_read(*old(self), *final(self), r),
    {
        match self.back_queue.pop_front() {
            Some(m) => return Some(Ok(m)),
            None => {},
        }
        if self.pending.has_text() {
            Some(self.pending.parse_message())
        } else {
            None
        }
    }

    /// Decodes the first message of the stream's next `item`; a missing item is the end of
    /// the stream.
    pub fn read_item<I: ReadMessage>(&mut self, item: Option<I>) -> (r: Result<IrcMessage<'static>, DecodeError>)
        ensures
            final(self).spec_stream() == old(self).spec_stream(),
            final(self).spec_queue() == old(self).spec_queue(),
            item is None ==> r matches Err(DecodeError::Eof),
            item.spec_text() is None ==> r is Err,
            item.spec_text() matches Some(t) ==> {
                &&& Pending::decoded(r, encode_utf8(t), 0)
                &&& final(self).spec_pending().spec_buf() == terminated(encode_utf8(t), 0)
            },
    {
        match item.read_string() {
            Ok(data) => self.pending.feed(data),
            Err(e) => Err(e),
        }
    }

    /// Hands messages back, to be read (in order) before any new text.
    pub fn extend(&mut self, msgs: Vec<IrcMessage<'static>>)
        ensures
            handed_back(*old(self), *final(self), msgs@),
    {
        let mut v = msgs;
        let ghost all = v@;
        let ghost q0 = self.back_queue@;
        while v.len() > 0
            invariant
                self.back_queue@ + v@ == q0 + all,
                self.pending == old(self).spec_pending(),
                self.stream == old(self).spec_stream(),
            decreases v@.len(),
        {
            let m = v.remove(0);
            self.back_queue.push_back(m);
        }
    }

}

} // verus!

verus! {

/// Messages handed back are read before any new text, first in first out: after handing
/// back `msgs`, the next read gives the oldest message waiting and leaves the rest waiting.
pub proof fn handed_back_messages_are_read_first<IO>(
    d0: StreamDecoder<IO>,
    d1: StreamDecoder<IO>,
    msgs: Seq<IrcMessage<'static>>,
    d2: StreamDecoder<IO>,
    r: Option<Result<IrcMessage<'static>, DecodeError>>,
)
    requires
        msgs.len() > 0,
        handed_back(d0, d1, msgs),
        buffered_read(d1, d2, r),
    ensures
        r == Some(Ok::<IrcMessage<'static>, DecodeError>((d0.spec_queue() + msgs)[0])),
        d2.spec_queue() == (d0.spec_queue() + msgs).drop_first(),
        d2.spec_pending() == d0.spec_pending(),
{
}

} // verus!
