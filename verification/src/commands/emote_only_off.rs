//! The `/emoteonlyoff` command.
use vstd::prelude::*;
use vstd::string::StringSliceAdditionalSpecFns;
use crate::commands::{Encodable, privmsg_line, push_privmsg};

verus! {

/// Disables emote-only mode.
#[derive(Debug, Copy, Clone, PartialEq, Eq, Hash)]
pub struct EmoteOnlyOff<'a> {
    pub(crate) channel: &'a str,
}

impl<'a> EmoteOnlyOff<'a> {
    /// The channel.
    pub closed spec fn spec_channel(self) -> &'a str {
        self.channel
    }
}

/// Disables emote-only mode.
pub fn emote_only_off(channel: &str) -> (r: EmoteOnlyOff<'_>)
    ensures
        r.spec_channel() == channel,
{
    EmoteOnlyOff { channel }
}

impl<'a> Encodable for EmoteOnlyOff<'a> {
    open spec fn encoding(&self) -> Seq<u8> {
        privmsg_line(self.spec_channel().spec_bytes(), "/emoteonlyoff".spec_bytes())
    }

    fn encode(&self, buf: &mut Vec<u8>) {
        push_privmsg(buf, self.channel, "/emoteonlyoff");
    }
}

} // verus!
