//! The `/subscribers` command.
use vstd::prelude::*;
use vstd::string::StringSliceAdditionalSpecFns;
use crate::commands::{Encodable, privmsg_line, push_privmsg};

verus! {

/// Enables subscribers-only mode (only subscribers may chat in this channel).
#[derive(Debug, Copy, Clone, PartialEq, Eq, Hash)]
pub struct Subscribers<'a> {
    pub(crate) channel: &'a str,
}

impl<'a> Subscribers<'a> {
    /// The channel.
    pub closed spec fn spec_channel(self) -> &'a str {
        self.channel
    }
}

/// Enables subscribers-only mode (only subscribers may chat in this channel).
pub fn subscribers(channel: &str) -> (r: Subscribers<'_>)
    ensures
        r.spec_channel() == channel,
{
    Subscribers { channel }
}

impl<'a> Encodable for Subscribers<'a> {
    open spec fn encoding(&self) -> Seq<u8> {
        privmsg_line(self.spec_channel().spec_bytes(), "/subscribers".spec_bytes())
    }

    fn encode(&self, buf: &mut Vec<u8>) {
        push_privmsg(buf, self.channel, "/subscribers");
    }
}

} // verus!
