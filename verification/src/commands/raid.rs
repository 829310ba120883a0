//! The `/raid` command.
use vstd::prelude::*;
use vstd::string::StringSliceAdditionalSpecFns;
use crate::commands::{Encodable, channel_name, privmsg_line, push_str, push_channel, crlf};

verus! {

/// Raid another channel.
#[derive(Debug, Copy, Clone, PartialEq, Eq, Hash)]
pub struct Raid<'a> {
    pub(crate) source: &'a str,
    pub(crate) target: &'a str,
}

impl<'a> Raid<'a> {
    /// The channel doing the raid.
    pub closed spec fn spec_source(self) -> &'a str {
        self.source
    }

    /// The channel being raided.
    pub closed spec fn spec_target(self) -> &'a str {
        self.target
    }
}

/// Raid another channel.
///
/// Use [unraid](super::unraid()) to cancel the Raid.
pub fn raid<'a>(source: &'a str, target: &'a str) -> (r: Raid<'a>)
    ensures
        r.spec_source() == source,
        r.spec_target() == target,
{
    Raid { source, target }
}

impl<'a> Encodable for Raid<'a> {
    open spec fn encoding(&self) -> Seq<u8> {
        privmsg_line(
            self.spec_source().spec_bytes(),
            "/raid ".spec_bytes() + channel_name(self.spec_target().spec_bytes()),
        )
    }

    fn encode(&self, buf: &mut Vec<u8>) {
        push_str(buf, "PRIVMSG ");
        push_channel(buf, self.source);
        push_str(buf, " :");
        push_str(buf, "/raid ");
        push_channel(buf, self.target);
        push_str(buf, "\r\n");
        assert(buf@ =~= old(buf)@ + self.encoding());
    }
}

} // verus!
