//! The `/subscribersoff` command.
use vstd::prelude::*;
use vstd::string::StringSliceAdditionalSpecFns;
use crate::commands::{Encodable, privmsg_line, push_privmsg};

verus! {

/// Disables subscribers-only mode.
#[derive(Debug, Copy, Clone, PartialEq, Eq, Hash)]
pub struct SubscribersOff<'a> {
    pub(crate) channel: &'a str,
}

impl<'a> SubscribersOff<'a> {
    /// The channel.
    pub closed spec fn spec_channel(self) -> &'a str {
        self.channel
    }
}

/// Disables subscribers-only mode.
pub fn subscribers_off(channel: &str) -> (r: SubscribersOff<'_>)
    ensures
        r.spec_channel() == channel,
{
    SubscribersOff { channel }
}

impl<'a> Encodable for SubscribersOff<'a> {
    open spec fn encoding(&self) -> Seq<u8> {
        privmsg_line(self.spec_channel().spec_bytes(), "/subscribersoff".spec_bytes())
    }

    fn encode(&self, buf: &mut Vec<u8>) {
        push_privmsg(buf, self.channel, "/subscribersoff");
    }
}

} // verus!
