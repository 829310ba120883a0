//! Encoders: the buffering and line splitting done before bytes reach a writer or a sink.
use vstd::prelude::*;
use crate::commands::Encodable;
use crate::irc::parser::LF;
use crate::text::{find_byte, find_byte_exec, lemma_find_byte_range};

verus! {

/// The lines of `d` from `from` on that a sink is sent one at a time: each runs up to and
/// including the next `\n`. The splitting stops at the end, at text without a `\n`, or at a
/// line that is only a `\n`.
pub open spec fn sink_pieces(d: Seq<u8>, from: int) -> Seq<(int, int)>
    decreases d.len() - from,
{
    if from < 0 || from >= d.len() {
        Seq::empty()
    } else {
        proof {
            lemma_find_byte_range(d, from, d.len() as int, LF);
        }
        let p = find_byte(d, from, d.len() as int, LF);
        if p < d.len() && p != from {
            seq![(from, p + 1)] + sink_pieces(d, p + 1)
        } else {
            Seq::empty()
        }
    }
}

/// The pieces as byte ranges.
pub open spec fn ranges_of(v: Seq<(usize, usize)>) -> Seq<(int, int)> {
    v.map_values(|x: (usize, usize)| (x.0 as int, x.1 as int))
}

/// The lines of `d` that a sink is sent one at a time; see [`sink_pieces`].
pub fn line_pieces(d: &[u8]) -> (r: Vec<(usize, usize)>)
    ensures
        ranges_of(r@) == sink_pieces(d@, 0),
{
    let mut r: Vec<(usize, usize)> = Vec::new();
    let mut from: usize = 0;
    let n = d.len();
    while from < n
        invariant
            from <= n == d@.len(),
            ranges_of(r@) + sink_pieces(d@, from as int) == sink_pieces(d@, 0),
        decreases n - from,
    {
        proof {
            lemma_find_byte_range(d@, from as int, n as int, LF);
        }
        let p = find_byte_exec(d, from, n, LF);
        if p < n && p != from {
            let ghost before = r@;
            r.push((from, p + 1));
            assert(ranges_of(r@) =~= ranges_of(before) + seq![(from as int, p + 1)]);
            assert(ranges_of(r@) + sink_pieces(d@, p + 1) =~= ranges_of(before) + (seq![(from as int, p + 1)]
                + sink_pieces(d@, p + 1)));
            from = p + 1;
        } else {
            assert(ranges_of(r@) + sink_pieces(d@, from as int) =~= ranges_of(r@));
            return r;
        }
    }
    assert(ranges_of(r@) + sink_pieces(d@, from as int) =~= ranges_of(r@));
    r
}

/// `d` ends with a `\n`.
pub open spec fn ends_with_lf(d: Seq<u8>) -> bool {
    d.len() > 0 && d.last() == LF
}

/// How an encoded message is sent to a sink.
pub enum SinkPlan {
    /// The whole text, then a `\n` on its own
    Whole,
    /// These lines of the text, one at a time
    Lines(Vec<(usize, usize)>),
}

/// The plan for sending `d` to a sink.
pub open spec fn plan_for(p: SinkPlan, d: Seq<u8>) -> bool {
    if ends_with_lf(d) {
        p matches SinkPlan::Lines(v) && ranges_of(v@) == sink_pieces(d, 0)
    } else {
        p is Whole
    }
}

/// A `Encoder` wraps a sink and turns each [`Encodable`] into the strings it is sent.
pub struct SinkEncoder<IO, M> {
    sink: IO,
    buf: Vec<u8>,
    _marker: std::marker::PhantomData<M>,
}

impl<IO, M> SinkEncoder<IO, M> {
    /// The encoding of the last message.
    pub closed spec fn spec_buf(self) -> Seq<u8> {
        self.buf@
    }

    /// The sink.
    pub closed spec fn spec_sink(self) -> IO {
        self.sink
    }

    /// Create a new `SinkEncoder` from an existing sink
    pub fn new(sink: IO) -> (r: Self)
        ensures
            r.spec_buf() == Seq::<u8>::empty(),
            r.spec_sink() == sink,
    {
        SinkEncoder { sink, buf: Vec::new(), _marker: std::marker::PhantomData }
    }

    /// Encodes `msg` in place of the last message, and says how to send it: text that does not
    /// end in `\n` goes whole and is followed by a `\n`; otherwise each line goes on its own.
    pub fn prepare<E: Encodable>(&mut self, msg: &E) -> (r: SinkPlan)
        ensures
            final(self).spec_buf() == msg.encoding(),
            final(self).spec_sink() == old(self).spec_sink(),
            plan_for(r, msg.encoding()),
    {
        self.buf.clear();
        msg.encode(&mut self.buf);
        assert(self.buf@ =~= msg.encoding());
        let n = self.buf.len();
        if n == 0 || self.buf[n - 1] != LF {
            SinkPlan::Whole
        } else {
            SinkPlan::Lines(line_pieces(self.buf.as_slice()))
        }
    }

    /// The encoding of the last message.
    pub fn buffer(&self) -> (r: &[u8])
        ensures
            r@ == self.spec_buf(),
    {
        self.buf.as_slice()
    }

    /// The sink.
    pub fn sink_mut(&mut self) -> (r: &mut IO)
        ensures
            *r == old(self).spec_sink(),
            final(self).spec_buf() == old(self).spec_buf(),
            final(self).spec_sink() == *final(r),
    {
        &mut self.sink
    }
}

/// An encoder over a writer: each message is encoded into a buffer, which is written and
/// flushed, then cleared.
pub struct AsyncEncoder<W> {
    pub(crate) writer: W,
    data: Vec<u8>,
}

impl<W> AsyncEncoder<W> {
    /// The bytes waiting to be written.
    pub closed spec fn spec_staged(self) -> Seq<u8> {
        self.data@
    }

    /// The writer.
    pub closed spec fn spec_writer(self) -> W {
        self.writer
    }

    /// Create a new Encoder over this writer
    pub fn new(writer: W) -> (r: Self)
        ensures
            r.spec_staged() == Seq::<u8>::empty(),
            r.spec_writer() == writer,
    {
        AsyncEncoder { writer, data: Vec::new() }
    }

    /// Adds the encoding of `msg` to the bytes waiting to be written.
    pub fn stage<M: Encodable>(&mut self, msg: &M)
        ensures
            final(self).spec_staged() == old(self).spec_staged() + msg.encoding(),
            final(self).spec_writer() == old(self).spec_writer(),
    {
        msg.encode(&mut self.data);
    }

    /// The bytes waiting to be written.
    pub fn staged(&self) -> (r: &[u8])
        ensures
            r@ == self.spec_staged(),
    {
        self.data.as_slice()
    }

    /// Forgets the bytes waiting to be written, once they have been written.
    pub fn clear_staged(&mut self)
        ensures
            final(self).spec_staged() == Seq::<u8>::empty(),
            final(self).spec_writer() == old(self).spec_writer(),
    {
        self.data.clear();
    }

    /// The writer.
    pub fn writer_mut(&mut self) -> (r: &mut W)
        ensures
            *r == old(self).spec_writer(),
            final(self).spec_staged() == old(self).spec_staged(),
            final(self).spec_writer() == *final(r),
    {
        &mut self.writer
    }

    /// Consumes the encoder, returning the writer and the bytes still waiting to be written.
    pub fn into_parts(self) -> (r: (W, Vec<u8>))
        ensures
            r.0 == self.spec_writer(),
            r.1@ == self.spec_staged(),
    {
        (self.writer, self.data)
    }
}

} // verus!

verus! {

/// The lines sent to a sink follow each other without gaps from where splitting starts, and
/// each is a run of bytes without `\n` closed by one `\n`.
pub proof fn sink_pieces_are_consecutive_lines(d: Seq<u8>, from: int)
    requires
        0 <= from,
    ensures
        ({
            let ps = sink_pieces(d, from);
            &&& ps.len() > 0 ==> ps[0].0 == from
            &&& forall|i: int| 0 <= i < ps.len() ==> {
                &&& from <= (#[trigger] ps[i]).0 < ps[i].1 <= d.len()
                &&& d[ps[i].1 - 1] == LF
                &&& forall|k: int| ps[i].0 <= k < ps[i].1 - 1 ==> d[k] != LF
            }
            &&& forall|i: int| 0 <= i < ps.len() - 1 ==> (#[trigger] ps[i]).1 == ps[i + 1].0
        }),
    decreases d.len() - from,
{
    if from < d.len() {
        lemma_find_byte_range(d, from, d.len() as int, LF);
        let p = find_byte(d, from, d.len() as int, LF);
        if p < d.len() && p != from {
            sink_pieces_are_consecutive_lines(d, p + 1);
            let rest = sink_pieces(d, p + 1);
            let ps = sink_pieces(d, from);
            assert(ps == seq![(from, p + 1)] + rest);
            assert forall|i: int| 0 <= i < ps.len() implies {
                &&& from <= (#[trigger] ps[i]).0 < ps[i].1 <= d.len()
                &&& d[ps[i].1 - 1] == LF
                &&& forall|k: int| ps[i].0 <= k < ps[i].1 - 1 ==> d[k] != LF
            } by {
                if i > 0 {
                    assert(ps[i] == rest[i - 1]);
                }
            }
            assert forall|i: int| 0 <= i < ps.len() - 1 implies (#[trigger] ps[i]).1 == ps[i + 1].0 by {
                if i > 0 {
                    assert(ps[i] == rest[i - 1]);
                    assert(ps[i + 1] == rest[i]);
                } else {
                    assert(ps[1] == rest[0]);
                }
            }
        }
    }
}

} // verus!
