//! The `/ban` command.
use vstd::prelude::*;
use vstd::string::StringSliceAdditionalSpecFns;
use crate::commands::{Encodable, privmsg_line, joined, parts_bytes, push_privmsg_parts};

verus! {

/// Permanently prevent a user from chatting.
#[derive(Debug, Copy, Clone, PartialEq, Eq, Hash)]
pub struct Ban<'a> {
    pub(crate) channel: &'a str,
    pub(crate) username: &'a str,
    pub(crate) reason: Option<&'a str>,
}

impl<'a> Ban<'a> {
    /// The channel.
    pub closed spec fn spec_channel(self) -> &'a str {
        self.channel
    }

    /// The user to ban.
    pub closed spec fn spec_username(self) -> &'a str {
        self.username
    }

    /// The reason, if any.
    pub closed spec fn spec_reason(self) -> Option<&'a str> {
        self.reason
    }
}

/// Permanently prevent a user from chatting.
///
/// Reason is optional and will be shown to the target user and other moderators.
pub fn ban<'a>(channel: &'a str, username: &'a str, reason: Option<&'a str>) -> (r: Ban<'a>)
    ensures
        r.spec_channel() == channel,
        r.spec_username() == username,
        r.spec_reason() == reason,
{
    Ban { channel, username, reason }
}

/// The words of a ban: `/ban`, the user, and the reason (empty when there is none).
pub open spec fn ban_words(username: Seq<u8>, reason: Option<&str>) -> Seq<Seq<u8>> {
    seq![
        "/ban".spec_bytes(),
        username,
        match reason {
            Some(r) => r.spec_bytes(),
            None => "".spec_bytes(),
        },
    ]
}

impl<'a> Encodable for Ban<'a> {
    open spec fn encoding(&self) -> Seq<u8> {
        privmsg_line(
            self.spec_channel().spec_bytes(),
            joined(ban_words(self.spec_username().spec_bytes(), self.spec_reason())),
        )
    }

    fn encode(&self, buf: &mut Vec<u8>) {
        let reason: &str = match self.reason {
            Some(r) => r,
            None => "",
        };
        let parts: Vec<&str> = vec!["/ban", self.username, reason];
        assert(parts_bytes(parts@) =~= ban_words(self.username.spec_bytes(), self.reason));
        push_privmsg_parts(buf, self.channel, &parts);
    }
}

} // verus!
