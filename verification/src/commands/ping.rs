//! The `PING` command.
use vstd::prelude::*;
use vstd::string::StringSliceAdditionalSpecFns;
use crate::commands::{Encodable, simple_line, push_simple};

verus! {

/// Request a server response with the provided token.
#[derive(Debug, Copy, Clone, PartialEq, Eq, Hash)]
pub struct Ping<'a> {
    pub(crate) token: &'a str,
}

impl<'a> Ping<'a> {
    /// The token.
    pub closed spec fn spec_token(self) -> &'a str {
        self.token
    }
}

/// Request a server response with the provided token.
pub fn ping(token: &str) -> (r: Ping<'_>)
    ensures
        r.spec_token() == token,
{
    Ping { token }
}

impl<'a> Encodable for Ping<'a> {
    open spec fn encoding(&self) -> Seq<u8> {
        simple_line("PING ".spec_bytes(), self.spec_token().spec_bytes())
    }

    fn encode(&self, buf: &mut Vec<u8>) {
        push_simple(buf, "PING ", self.token);
    }
}

} // verus!
