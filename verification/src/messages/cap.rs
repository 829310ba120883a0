//! Acknowledgement (or not) of a requested capability.
use vstd::prelude::*;
use vstd::string::StringSliceAdditionalSpecFns;
use crate::irc::error::MessageError;
use crate::irc::message::IrcMessage;
use crate::irc::FromIrcMessage;
use crate::maybe_owned::{MaybeOwned, MaybeOwnedIndex};
use crate::messages::shape::as_unit;
use crate::text::bytes_eq;

verus! {

broadcast use vstd::string::group_string_axioms;

/// A parsed Capability
#[derive(Debug, Copy, Clone, PartialEq, Eq)]
pub enum Capability<'a> {
    /// This Capability was Acknowledged
    Acknowledged(&'a str),
    /// This Capability was not acknowledged
    NotAcknowledged(&'a str),
}

/// Acknowledgement (or not) on a **CAPS** request
#[derive(Debug)]
pub struct Cap<'a> {
    msg: IrcMessage<'a>,
    capability: MaybeOwnedIndex,
    acknowledged: bool,
}

/// `r` is the outcome of reading a `CAP` message from `msg`: the command, then the data
/// (the capability), then the second argument (`ACK` or another answer) must be present.
pub open spec fn cap_result(r: Result<(), MessageError>, msg: IrcMessage) -> bool {
    if !msg.has_command(IrcMessage::CAP) {
        r matches Err(MessageError::InvalidCommand { .. })
    } else if msg.spec_parts().data is None {
        r matches Err(MessageError::ExpectedData)
    } else if msg.spec_nth_arg(1) is None {
        r matches Err(MessageError::ExpectedArg { pos }) && pos == 1
    } else {
        r is Ok
    }
}

/// The second argument of `msg` is `ACK`.
pub open spec fn is_ack(msg: IrcMessage) -> bool {
    msg.spec_nth_arg(1) matches Some(a) && a.bytes_of(msg.raw_bytes()) == "ACK".spec_bytes()
}

impl<'a> Cap<'a> {
    #[verifier::type_invariant]
    spec fn inv(self) -> bool {
        &&& self.msg.spec_parts().data == Some(self.capability)
        &&& self.capability.valid_in(self.msg.raw_bytes())
    }

    /// The message this was read from.
    pub closed spec fn spec_msg(self) -> IrcMessage<'a> {
        self.msg
    }

    /// Whether the capability was acknowledged.
    pub closed spec fn spec_acknowledged(self) -> bool {
        self.acknowledged
    }

    /// Get the raw message
    pub fn raw(&self) -> (r: &str)
        ensures
            r.spec_bytes() == self.spec_msg().raw_bytes(),
    {
        self.msg.get_raw()
    }

    /// The parsed capability
    pub fn capability(&self) -> (r: Capability<'_>)
        ensures
            self.spec_msg().spec_parts().data matches Some(d) && match r {
                Capability::Acknowledged(s) => self.spec_acknowledged() && s.spec_bytes() == d.bytes_of(
                    self.spec_msg().raw_bytes(),
                ),
                Capability::NotAcknowledged(s) => !self.spec_acknowledged() && s.spec_bytes()
                    == d.bytes_of(self.spec_msg().raw_bytes()),
            },
    {
        proof {
            use_type_invariant(self);
        }
        let cap = self.msg.slice(self.capability);
        if self.acknowledged {
            Capability::Acknowledged(cap)
        } else {
            Capability::NotAcknowledged(cap)
        }
    }

    /// An owned copy of this message.
    pub fn into_owned(self) -> (r: Cap<'static>)
        ensures
            r.spec_msg().raw_bytes() == self.spec_msg().raw_bytes(),
            r.spec_msg().spec_parts() == self.spec_msg().spec_parts(),
            r.spec_acknowledged() == self.spec_acknowledged(),
    {
        proof {
            use_type_invariant(&self);
        }
        Cap { msg: self.msg.into_owned(), capability: self.capability, acknowledged: self.acknowledged }
    }
}

impl<'a> FromIrcMessage<'a> for Cap<'a> {
    open spec fn raw_text(self) -> Seq<char> {
        self.spec_msg().spec_raw()
    }

    open spec fn accepts(msg: IrcMessage<'a>) -> bool {
        cap_result(Ok(()), msg)
    }

    fn from_irc(msg: IrcMessage<'a>) -> (r: Result<Self, MessageError>)
        ensures
            cap_result(as_unit(r), msg),
            r matches Ok(c) ==> c.spec_msg() == msg && c.spec_acknowledged() == is_ack(msg),
    {
        match msg.expect_command(IrcMessage::CAP) {
            Err(e) => return Err(e),
            Ok(()) => {},
        }
        let capability = match msg.expect_data_index() {
            Err(e) => return Err(e),
            Ok(i) => i,
        };
        let acknowledged = match msg.expect_arg(1) {
            Err(e) => return Err(e),
            Ok(a) => bytes_eq(a.as_bytes(), "ACK".as_bytes()),
        };
        Ok(Cap { msg, capability, acknowledged })
    }

    fn into_inner(self) -> MaybeOwned<'a> {
        self.msg.into_inner()
    }
}


impl<'a> Clone for Cap<'a> {
    fn clone(&self) -> (r: Self)
        ensures
            r.spec_msg().raw_bytes() == self.spec_msg().raw_bytes(),
            r.spec_msg().spec_parts() == self.spec_msg().spec_parts(),
            r.spec_acknowledged() == self.spec_acknowledged(),
    {
        proof {
            use_type_invariant(self);
        }
        Cap { msg: self.msg.clone(), capability: self.capability, acknowledged: self.acknowledged }
    }
}

} // verus!
