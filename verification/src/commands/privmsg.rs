//! The `PRIVMSG` command: a chat message to a channel.
use vstd::prelude::*;
use vstd::string::StringSliceAdditionalSpecFns;
use crate::commands::{Encodable, privmsg_line, push_privmsg};

verus! {

/// Send a message to a channel.
#[derive(Debug, Copy, Clone, PartialEq, Eq, Hash)]
pub struct Privmsg<'a> {
    pub(crate) channel: &'a str,
    pub(crate) data: &'a str,
}

impl<'a> Privmsg<'a> {
    /// The channel.
    pub closed spec fn spec_channel(self) -> &'a str {
        self.channel
    }

    /// The message.
    pub closed spec fn spec_data(self) -> &'a str {
        self.data
    }
}

/// Send a message to a channel.
pub fn privmsg<'a>(channel: &'a str, data: &'a str) -> (r: Privmsg<'a>)
    ensures
        r.spec_channel() == channel,
        r.spec_data() == data,
{
    Privmsg { channel, data }
}

impl<'a> Encodable for Privmsg<'a> {
    open spec fn encoding(&self) -> Seq<u8> {
        privmsg_line(self.spec_channel().spec_bytes(), self.spec_data().spec_bytes())
    }

    fn encode(&self, buf: &mut Vec<u8>) {
        push_privmsg(buf, self.channel, self.data);
    }
}

} // verus!
