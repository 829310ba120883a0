//! Answering chat messages.
use vstd::prelude::*;
use vstd::string::{StringExecFns, StringSliceAdditionalSpecFns};
use crate::commands::{privmsg, privmsg_line, reply, Reply};
use crate::commands::reply::reply_line;
use crate::io_errors::{io_error, IoErrorKind};
use crate::irc::tags::tag_lookup;
use crate::maybe_owned::MaybeOwnedIndex;
use crate::messages::Privmsg;
use crate::writer::{MpscWriter, sent_or_kept};

verus! {

/// Extensions to the `Privmsg` message type
pub trait PrivmsgExt {
    /// Reply to this message with `data`
    fn reply(&mut self, msg: &Privmsg<'_>, data: &str) -> std::io::Result<()>;

    /// Send a message back to the channel this Privmsg came from
    fn say(&mut self, msg: &Privmsg<'_>, data: &str) -> std::io::Result<()>;
}

/// Where the `id` tag's value of `msg` is, if it has one.
pub open spec fn reply_id(msg: Privmsg) -> Option<MaybeOwnedIndex> {
    tag_lookup(msg.spec_msg().spec_tag_fields(), msg.spec_msg().raw_bytes(), "id".spec_bytes())
}

/// The answer `data` to `msg`: it needs the message's `id` tag, which Twitch only sends when
/// the `TAGS` capability is enabled.
pub fn make_reply<'a>(msg: &'a Privmsg<'_>, data: &'a str) -> (r: std::io::Result<Reply<'a>>)
    ensures
        match reply_id(*msg) {
            Some(v) => {
                &&& r matches Ok(rep)
                &&& rep.spec_msg_id().spec_bytes() == v.bytes_of(msg.spec_msg().raw_bytes())
                &&& rep.spec_msg() == data
                &&& msg.spec_msg().spec_nth_arg(0) matches Some(i)
                &&& rep.spec_channel().spec_bytes() == i.bytes_of(msg.spec_msg().raw_bytes())
            },
            None => r is Err,
        },
{
    let channel = msg.channel();
    match msg.tags().get("id") {
        Some(id) => Ok(reply(channel, id, data)),
        None => Err(io_error(IoErrorKind::PermissionDenied, String::from_str("you must have `TAGS` enabled"))),
    }
}

impl PrivmsgExt for MpscWriter {
    /// The reply goes out through [`MpscWriter::send`]; without an `id` tag nothing is written.
    fn reply(&mut self, msg: &Privmsg<'_>, data: &str) -> (r: std::io::Result<()>)
        ensures
            match reply_id(*msg) {
                None => r is Err && *final(self) == *old(self),
                Some(v) => {
                    let raw = msg.spec_msg().raw_bytes();
                    &&& msg.spec_msg().spec_nth_arg(0) matches Some(i)
                    &&& sent_or_kept(
                        *old(self),
                        *final(self),
                        r is Ok,
                        reply_line(i.bytes_of(raw), v.bytes_of(raw), data.spec_bytes()),
                    )
                },
            },
    {
        match make_reply(msg, data) {
            Ok(rep) => self.send(&rep),
            Err(e) => Err(e),
        }
    }

    /// The message goes out through [`MpscWriter::send`], to the channel of `msg`.
    fn say(&mut self, msg: &Privmsg<'_>, data: &str) -> (r: std::io::Result<()>)
        ensures
            msg.spec_msg().spec_nth_arg(0) matches Some(i) && sent_or_kept(
                *old(self),
                *final(self),
                r is Ok,
                privmsg_line(i.bytes_of(msg.spec_msg().raw_bytes()), data.spec_bytes()),
            ),
    {
        self.send(&privmsg(msg.channel(), data))
    }
}

} // verus!
