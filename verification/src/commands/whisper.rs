//! The `/w` (whisper) command.
use vstd::prelude::*;
use vstd::string::StringSliceAdditionalSpecFns;
use crate::commands::{Encodable, joined, parts_bytes, push_str, push_joined, crlf};

verus! {

/// Whispers a message to the username.
#[derive(Debug, Copy, Clone, PartialEq, Eq, Hash)]
pub struct Whisper<'a> {
    pub(crate) username: &'a str,
    pub(crate) message: &'a str,
}

impl<'a> Whisper<'a> {
    /// The user to whisper to.
    pub closed spec fn spec_username(self) -> &'a str {
        self.username
    }

    /// The message.
    pub closed spec fn spec_message(self) -> &'a str {
        self.message
    }
}

/// Whispers a message to the username.
pub fn whisper<'a>(username: &'a str, message: &'a str) -> (r: Whisper<'a>)
    ensures
        r.spec_username() == username,
        r.spec_message() == message,
{
    Whisper { username, message }
}

/// The words of a whisper: `/w`, the user and the message.
pub open spec fn whisper_words(username: Seq<u8>, message: Seq<u8>) -> Seq<Seq<u8>> {
    seq!["/w".spec_bytes(), username, message]
}

impl<'a> Encodable for Whisper<'a> {
    open spec fn encoding(&self) -> Seq<u8> {
        "PRIVMSG jtv :".spec_bytes() + joined(
            whisper_words(self.spec_username().spec_bytes(), self.spec_message().spec_bytes()),
        ) + crlf()
    }

    fn encode(&self, buf: &mut Vec<u8>) {
        let parts: Vec<&str> = vec!["/w", self.username, self.message];
        assert(parts_bytes(parts@) =~= whisper_words(
            self.username.spec_bytes(),
            self.message.spec_bytes(),
        ));
        push_str(buf, "PRIVMSG jtv :");
        push_joined(buf, &parts);
        push_str(buf, "\r\n");
        assert(buf@ =~= old(buf)@ + self.encoding());
    }
}

} // verus!
