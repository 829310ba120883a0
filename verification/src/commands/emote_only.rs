//! The `/emoteonly` command.
use vstd::prelude::*;
use vstd::string::StringSliceAdditionalSpecFns;
use crate::commands::{Encodable, privmsg_line, push_privmsg};

verus! {

/// Enables emote-only mode (only emoticons may be used in chat).
#[derive(Debug, Copy, Clone, PartialEq, Eq, Hash)]
pub struct EmoteOnly<'a> {
    pub(crate) channel: &'a str,
}

impl<'a> EmoteOnly<'a> {
    /// The channel.
    pub closed spec fn spec_channel(self) -> &'a str {
        self.channel
    }
}

/// Enables emote-only mode (only emoticons may be used in chat).
pub fn emote_only(channel: &str) -> (r: EmoteOnly<'_>)
    ensures
        r.spec_channel() == channel,
{
    EmoteOnly { channel }
}

impl<'a> Encodable for EmoteOnly<'a> {
    open spec fn encoding(&self) -> Seq<u8> {
        privmsg_line(self.spec_channel().spec_bytes(), "/emoteonly".spec_bytes())
    }

    fn encode(&self, buf: &mut Vec<u8>) {
        push_privmsg(buf, self.channel, "/emoteonly");
    }
}

} // verus!
