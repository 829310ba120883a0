//! A reply: a chat message to a channel that answers an earlier message.
use vstd::prelude::*;
use vstd::string::StringSliceAdditionalSpecFns;
use crate::commands::{Encodable, privmsg_line, push_privmsg, push_str};

verus! {

/// Reply to a message in a channel.
#[derive(Debug, Copy, Clone, PartialEq, Eq, Hash)]
pub struct Reply<'a> {
    pub(crate) channel: &'a str,
    pub(crate) msg_id: &'a str,
    pub(crate) msg: &'a str,
}

impl<'a> Reply<'a> {
    /// The channel.
    pub closed spec fn spec_channel(self) -> &'a str {
        self.channel
    }

    /// The id of the message answered.
    pub closed spec fn spec_msg_id(self) -> &'a str {
        self.msg_id
    }

    /// The answer.
    pub closed spec fn spec_msg(self) -> &'a str {
        self.msg
    }
}

/// Reply to the message with the id `msg_id` in `channel`, with `msg`.
pub fn reply<'a>(channel: &'a str, msg_id: &'a str, msg: &'a str) -> (r: Reply<'a>)
    ensures
        r.spec_channel() == channel,
        r.spec_msg_id() == msg_id,
        r.spec_msg() == msg,
{
    Reply { channel, msg_id, msg }
}

/// The line `@reply-parent-msg-id=<id> PRIVMSG <channel> :<msg>\r\n`.
pub open spec fn reply_line(channel: Seq<u8>, msg_id: Seq<u8>, msg: Seq<u8>) -> Seq<u8> {
    "@reply-parent-msg-id=".spec_bytes() + msg_id + " ".spec_bytes() + privmsg_line(channel, msg)
}

impl<'a> Encodable for Reply<'a> {
    open spec fn encoding(&self) -> Seq<u8> {
        reply_line(
            self.spec_channel().spec_bytes(),
            self.spec_msg_id().spec_bytes(),
            self.spec_msg().spec_bytes(),
        )
    }

    fn encode(&self, buf: &mut Vec<u8>) {
        push_str(buf, "@reply-parent-msg-id=");
        push_str(buf, self.msg_id);
        push_str(buf, " ");
        push_privmsg(buf, self.channel, self.msg);
        assert(buf@ =~= old(buf)@ + self.encoding());
    }
}

} // verus!
