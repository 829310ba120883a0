//! The server asks clients to reconnect.
use vstd::prelude::*;
use vstd::string::StringSliceAdditionalSpecFns;
use crate::irc::error::MessageError;
use crate::irc::message::IrcMessage;
use crate::irc::FromIrcMessage;
use crate::maybe_owned::MaybeOwned;
use crate::messages::shape::{shape_ok, shape_result, as_unit, check_shape};

verus! {

/// Signals that you should reconnect and rejoin channels after a restart.
///
/// Twitch IRC processes occasionally need to be restarted. When this happens,
/// clients that have requested the IRC v3 `twitch.tv/commands` _capability_ are
/// issued a `RECONNECT`. After a short time, the connection is closed. In this
/// case, reconnect and rejoin channels that were on the connection, as you
/// would normally.
#[derive(Debug)]
pub struct Reconnect<'a> {
    msg: IrcMessage<'a>,
}

impl<'a> Reconnect<'a> {
    #[verifier::type_invariant]
    spec fn inv(self) -> bool {
        self.msg.has_command(IrcMessage::RECONNECT)
    }

    /// The message this was read from.
    pub closed spec fn spec_msg(self) -> IrcMessage<'a> {
        self.msg
    }

    /// Get the raw message
    pub fn raw(&self) -> (r: &str)
        ensures
            r.spec_bytes() == self.spec_msg().raw_bytes(),
    {
        self.msg.get_raw()
    }

    /// An owned copy of this message.
    pub fn into_owned(self) -> (r: Reconnect<'static>)
        ensures
            r.spec_msg().raw_bytes() == self.spec_msg().raw_bytes(),
            r.spec_msg().spec_parts() == self.spec_msg().spec_parts(),
    {
        proof {
            use_type_invariant(&self);
        }
        Reconnect { msg: self.msg.into_owned() }
    }
}

impl<'a> FromIrcMessage<'a> for Reconnect<'a> {
    open spec fn raw_text(self) -> Seq<char> {
        self.spec_msg().spec_raw()
    }

    open spec fn accepts(msg: IrcMessage<'a>) -> bool {
        shape_ok(msg, IrcMessage::RECONNECT, false, false, false)
    }

    fn from_irc(msg: IrcMessage<'a>) -> (r: Result<Self, MessageError>)
        ensures
            shape_result(as_unit(r), msg, IrcMessage::RECONNECT, false, false, false),
            r matches Ok(m) ==> m.spec_msg() == msg,
    {
        match check_shape(&msg, IrcMessage::RECONNECT, false, false, false) {
            Err(e) => Err(e),
            Ok(()) => Ok(Reconnect { msg }),
        }
    }

    fn into_inner(self) -> MaybeOwned<'a> {
        self.msg.into_inner()
    }
}


impl<'a> Clone for Reconnect<'a> {
    fn clone(&self) -> (r: Self)
        ensures
            r.spec_msg().raw_bytes() == self.spec_msg().raw_bytes(),
            r.spec_msg().spec_parts() == self.spec_msg().spec_parts(),
    {
        proof {
            use_type_invariant(self);
        }
        Reconnect { msg: self.msg.clone() }
    }
}

} // verus!
