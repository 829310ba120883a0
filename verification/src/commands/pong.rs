//! The `PONG` command.
use vstd::prelude::*;
use vstd::string::StringSliceAdditionalSpecFns;
use crate::commands::{Encodable, simple_line, push_simple};

verus! {

/// Response to a `PING` from the server, with its token.
#[derive(Debug, Copy, Clone, PartialEq, Eq, Hash)]
pub struct Pong<'a> {
    pub(crate) token: &'a str,
}

impl<'a> Pong<'a> {
    /// The token.
    pub closed spec fn spec_token(self) -> &'a str {
        self.token
    }
}

/// Response to a `PING` from the server, with its token.
pub fn pong(token: &str) -> (r: Pong<'_>)
    ensures
        r.spec_token() == token,
{
    Pong { token }
}

impl<'a> Encodable for Pong<'a> {
    open spec fn encoding(&self) -> Seq<u8> {
        simple_line("PONG :".spec_bytes(), self.spec_token().spec_bytes())
    }

    fn encode(&self, buf: &mut Vec<u8>) {
        push_simple(buf, "PONG :", self.token);
    }
}

} // verus!
