//! A raw chat command, such as `/color #FFFFFF`.
use vstd::prelude::*;
use vstd::string::StringSliceAdditionalSpecFns;
use crate::commands::{Encodable, privmsg_line, joined, parts_bytes, push_privmsg_parts};

verus! {

/// Sends the `command` to the `channel` (e.g. `/color #FFFFFF`)
#[derive(Debug, Copy, Clone, PartialEq, Eq, Hash)]
pub struct Command<'a> {
    pub(crate) channel: &'a str,
    pub(crate) data: &'a str,
}

impl<'a> Command<'a> {
    /// The channel.
    pub closed spec fn spec_channel(self) -> &'a str {
        self.channel
    }

    /// The command text.
    pub closed spec fn spec_data(self) -> &'a str {
        self.data
    }
}

/// Sends the `command` to the `channel` (e.g. `/color #FFFFFF`)
pub fn command<'a>(channel: &'a str, data: &'a str) -> (r: Command<'a>)
    ensures
        r.spec_channel() == channel,
        r.spec_data() == data,
{
    Command { channel, data }
}

impl<'a> Encodable for Command<'a> {
    open spec fn encoding(&self) -> Seq<u8> {
        privmsg_line(self.spec_channel().spec_bytes(), joined(seq![self.spec_data().spec_bytes()]))
    }

    fn encode(&self, buf: &mut Vec<u8>) {
        let parts: Vec<&str> = vec![self.data];
        assert(parts_bytes(parts@) =~= seq![self.data.spec_bytes()]);
        push_privmsg_parts(buf, self.channel, &parts);
    }
}

} // verus!
