//! The `PART` command.
use vstd::prelude::*;
use vstd::string::StringSliceAdditionalSpecFns;
use crate::commands::{Encodable, simple_line, channel_name, push_str, push_channel};

verus! {

/// Leave a channel.
#[derive(Debug, Copy, Clone, PartialEq, Eq, Hash)]
pub struct Part<'a> {
    pub(crate) channel: &'a str,
}

impl<'a> Part<'a> {
    /// The channel.
    pub closed spec fn spec_channel(self) -> &'a str {
        self.channel
    }
}

/// Leave a channel.
pub fn part(channel: &str) -> (r: Part<'_>)
    ensures
        r.spec_channel() == channel,
{
    Part { channel }
}

impl<'a> Encodable for Part<'a> {
    open spec fn encoding(&self) -> Seq<u8> {
        simple_line("PART ".spec_bytes(), channel_name(self.spec_channel().spec_bytes()))
    }

    fn encode(&self, buf: &mut Vec<u8>) {
        push_str(buf, "PART ");
        push_channel(buf, self.channel);
        push_str(buf, "\r\n");
        assert(buf@ =~= old(buf)@ + self.encoding());
    }
}

} // verus!
