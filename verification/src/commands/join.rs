//! The `JOIN` command.
use vstd::prelude::*;
use vstd::string::StringSliceAdditionalSpecFns;
use crate::commands::{Encodable, simple_line, channel_name, push_str, push_channel};

verus! {

/// Join a channel.
#[derive(Debug, Copy, Clone, PartialEq, Eq, Hash)]
pub struct Join<'a> {
    pub(crate) channel: &'a str,
}

impl<'a> Join<'a> {
    /// The channel.
    pub closed spec fn spec_channel(self) -> &'a str {
        self.channel
    }
}

/// Join a channel.
pub fn join(channel: &str) -> (r: Join<'_>)
    ensures
        r.spec_channel() == channel,
{
    Join { channel }
}

impl<'a> Encodable for Join<'a> {
    open spec fn encoding(&self) -> Seq<u8> {
        simple_line("JOIN ".spec_bytes(), channel_name(self.spec_channel().spec_bytes()))
    }

    fn encode(&self, buf: &mut Vec<u8>) {
        push_str(buf, "JOIN ");
        push_channel(buf, self.channel);
        push_str(buf, "\r\n");
        assert(buf@ =~= old(buf)@ + self.encoding());
    }
}

} // verus!
