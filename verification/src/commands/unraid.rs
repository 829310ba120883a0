//! The `/unraid` command.
use vstd::prelude::*;
use vstd::string::StringSliceAdditionalSpecFns;
use crate::commands::{Encodable, privmsg_line, push_privmsg};

verus! {

/// Cancel the raid.
#[derive(Debug, Copy, Clone, PartialEq, Eq, Hash)]
pub struct Unraid<'a> {
    pub(crate) channel: &'a str,
}

impl<'a> Unraid<'a> {
    /// The channel.
    pub closed spec fn spec_channel(self) -> &'a str {
        self.channel
    }
}

/// Cancel the raid.
pub fn unraid(channel: &str) -> (r: Unraid<'_>)
    ensures
        r.spec_channel() == channel,
{
    Unraid { channel }
}

impl<'a> Encodable for Unraid<'a> {
    open spec fn encoding(&self) -> Seq<u8> {
        privmsg_line(self.spec_channel().spec_bytes(), "/unraid".spec_bytes())
    }

    fn encode(&self, buf: &mut Vec<u8>) {
        push_privmsg(buf, self.channel, "/unraid");
    }
}

} // verus!
