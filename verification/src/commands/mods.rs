//! The `/mods` command.
use vstd::prelude::*;
use vstd::string::StringSliceAdditionalSpecFns;
use crate::commands::{Encodable, privmsg_line, push_privmsg};

verus! {

/// Lists the moderators of this channel.
#[derive(Debug, Copy, Clone, PartialEq, Eq, Hash)]
pub struct Mods<'a> {
    pub(crate) channel: &'a str,
}

impl<'a> Mods<'a> {
    /// The channel.
    pub closed spec fn spec_channel(self) -> &'a str {
        self.channel
    }
}

/// Lists the moderators of this channel.
pub fn mods(channel: &str) -> (r: Mods<'_>)
    ensures
        r.spec_channel() == channel,
{
    Mods { channel }
}

impl<'a> Encodable for Mods<'a> {
    open spec fn encoding(&self) -> Seq<u8> {
        privmsg_line(self.spec_channel().spec_bytes(), "/mods".spec_bytes())
    }

    fn encode(&self, buf: &mut Vec<u8>) {
        push_privmsg(buf, self.channel, "/mods");
    }
}

} // verus!
