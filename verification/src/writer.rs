//! A writer that hands each flushed batch of bytes to a channel.
use vstd::prelude::*;
use crate::channel::{ChannelSender, TrySendError};
use crate::commands::{Encodable, push_bytes};
use crate::io_errors::{io_error, IoErrorKind};
use vstd::string::StringExecFns;

verus! {

/// What flushing a [`MpscWriter`] did.
#[derive(Copy, Clone, Debug, PartialEq, Eq, Structural)]
pub enum Flushed {
    /// The buffered bytes were sent
    Sent,
    /// The channel was full: the bytes stay buffered; try again later
    Retry,
    /// The channel is closed: the bytes were dropped
    Closed,
}

/// What sending `enc` after the buffered bytes does: on success the buffer and `enc` went
/// down the channel as one batch; otherwise nothing went, and the buffer is either empty
/// (dropped by a closed channel) or holds everything, kept for the next flush.
pub open spec fn sent_or_kept(old: MpscWriter, new: MpscWriter, ok: bool, enc: Seq<u8>) -> bool {
    &&& new.spec_channel() == old.spec_channel()
    &&& if ok {
        &&& new.spec_buf() == Seq::<u8>::empty()
        &&& new.spec_sent() == old.spec_sent().push(old.spec_buf() + enc)
    } else {
        &&& new.spec_sent() == old.spec_sent()
        &&& new.spec_buf() == Seq::<u8>::empty() || new.spec_buf() == old.spec_buf() + enc
    }
}

/// A writer that buffers what is written and sends it down a channel on each flush.
pub struct MpscWriter {
    buf: Vec<u8>,
    channel: ChannelSender<Vec<u8>>,
    sent: Ghost<Seq<Seq<u8>>>,
}

impl MpscWriter {
    /// The bytes written since the last flush.
    pub closed spec fn spec_buf(self) -> Seq<u8> {
        self.buf@
    }

    /// The channel the bytes are sent down.
    pub closed spec fn spec_channel(self) -> ChannelSender<Vec<u8>> {
        self.channel
    }

    /// The batches the channel accepted, in order.
    pub closed spec fn spec_sent(self) -> Seq<Seq<u8>> {
        self.sent@
    }

    /// Create a writer that sends to `channel`.
    pub fn new(channel: ChannelSender<Vec<u8>>) -> (r: Self)
        ensures
            r.spec_buf() == Seq::<u8>::empty(),
            r.spec_channel() == channel,
            r.spec_sent() == Seq::<Seq<u8>>::empty(),
    {
        MpscWriter { buf: Vec::new(), channel, sent: Ghost(Seq::empty()) }
    }

    /// Buffers `data`; everything is accepted.
    pub fn write(&mut self, data: &[u8]) -> (r: usize)
        ensures
            final(self).spec_buf() == old(self).spec_buf() + data@,
            final(self).spec_channel() == old(self).spec_channel(),
            final(self).spec_sent() == old(self).spec_sent(),
            r == data@.len(),
    {
        push_bytes(&mut self.buf, data);
        data.len()
    }

    /// Buffers the encoding of `msg`.
    pub fn encode<E: Encodable>(&mut self, msg: &E)
        ensures
            final(self).spec_buf() == old(self).spec_buf() + msg.encoding(),
            final(self).spec_channel() == old(self).spec_channel(),
            final(self).spec_sent() == old(self).spec_sent(),
    {
        msg.encode(&mut self.buf);
    }

    /// Sends the buffered bytes down the channel as one batch; whether the channel takes it
    /// is the channel's answer.
    pub fn flush(&mut self) -> (r: Flushed)
        ensures
            final(self).spec_channel() == old(self).spec_channel(),
            r == Flushed::Sent ==> final(self).spec_buf() == Seq::<u8>::empty() && final(self).spec_sent()
                == old(self).spec_sent().push(old(self).spec_buf()),
            r == Flushed::Retry ==> final(self).spec_buf() == old(self).spec_buf() && final(self).spec_sent()
                == old(self).spec_sent(),
            r == Flushed::Closed ==> final(self).spec_buf() == Seq::<u8>::empty() && final(self).spec_sent()
                == old(self).spec_sent(),
    {
        let mut data: Vec<u8> = Vec::new();
        std::mem::swap(&mut data, &mut self.buf);
        let ghost batch = data@;
        match self.channel.try_send(data) {
            Ok(()) => {
                proof {
                    self.sent@ = self.sent@.push(batch);
                }
                Flushed::Sent
            },
            Err(TrySendError::Full(data)) => {
                self.buf = data;
                Flushed::Retry
            },
            Err(TrySendError::Closed(_)) => Flushed::Closed,
        }
    }

    /// Buffers the encoding of `msg` and sends the buffer down the channel.
    ///
    /// When the channel is full the bytes stay buffered, to go with the next flush, and a
    /// `WouldBlock` error says so; when it is closed they are dropped, with an
    /// `UnexpectedEof` error.
    pub fn send<E: Encodable>(&mut self, msg: &E) -> (r: std::io::Result<()>)
        ensures
            sent_or_kept(*old(self), *final(self), r is Ok, msg.encoding()),
    {
        self.encode(msg);
        match self.flush() {
            Flushed::Sent => Ok(()),
            Flushed::Retry => Err(io_error(IoErrorKind::WouldBlock, String::from_str("the writer's channel is full"))),
            Flushed::Closed => Err(io_error(IoErrorKind::UnexpectedEof, String::from_str("writer was closed"))),
        }
    }
}

} // verus!
