//! The `/unhost` command.
use vstd::prelude::*;
use vstd::string::StringSliceAdditionalSpecFns;
use crate::commands::{Encodable, privmsg_line, push_privmsg};

verus! {

/// Stop hosting another channel.
#[derive(Debug, Copy, Clone, PartialEq, Eq, Hash)]
pub struct Unhost<'a> {
    pub(crate) channel: &'a str,
}

impl<'a> Unhost<'a> {
    /// The channel.
    pub closed spec fn spec_channel(self) -> &'a str {
        self.channel
    }
}

/// Stop hosting another channel.
pub fn unhost(channel: &str) -> (r: Unhost<'_>)
    ensures
        r.spec_channel() == channel,
{
    Unhost { channel }
}

impl<'a> Encodable for Unhost<'a> {
    open spec fn encoding(&self) -> Seq<u8> {
        privmsg_line(self.spec_channel().spec_bytes(), "/unhost".spec_bytes())
    }

    fn encode(&self, buf: &mut Vec<u8>) {
        push_privmsg(buf, self.channel, "/unhost");
    }
}

} // verus!
