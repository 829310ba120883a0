//! Typed messages that check the command and the parts they need.
use vstd::prelude::*;
use vstd::string::StringSliceAdditionalSpecFns;
use crate::irc::error::MessageError;
use crate::irc::message::IrcMessage;
use crate::irc::prefix::PrefixIndex;
use crate::irc::tags::{TagIndices, Tags, fields_valid_in, tag_lookup};
use crate::text::{parse_usize, spec_parse_usize};
use crate::irc::FromIrcMessage;
use crate::maybe_owned::MaybeOwned;
use crate::messages::shape::{shape_ok, shape_result, as_unit, check_shape};

verus! {

broadcast use vstd::string::group_string_axioms;

/// The first message after registering, with the nickname the server gave you.
#[derive(Debug)]
pub struct IrcReady<'a> {
    msg: IrcMessage<'a>,
}

impl<'a> IrcReady<'a> {
    #[verifier::type_invariant]
    spec fn inv(self) -> bool {
        shape_ok(self.msg, IrcMessage::IRC_READY, false, true, false)
    }

    /// The message this was read from.
    pub closed spec fn spec_msg(self) -> IrcMessage<'a> {
        self.msg
    }

    /// Get the raw message
    pub fn raw(&self) -> (r: &str)
        ensures
            r.spec_bytes() == self.spec_msg().raw_bytes(),
    {
        self.msg.get_raw()
    }

    /// An owned copy of this message.
    pub fn into_owned(self) -> (r: IrcReady<'static>)
        ensures
            r.spec_msg().raw_bytes() == self.spec_msg().raw_bytes(),
            r.spec_msg().spec_parts() == self.spec_msg().spec_parts(),
    {
        proof {
            use_type_invariant(&self);
        }
        IrcReady {
            msg: self.msg.into_owned(),
        }
    }

    /// The nickname the server gave you.
    pub fn nickname(&self) -> (r: &str)
        ensures
            self.spec_msg().spec_nth_arg(0) matches Some(i) && r.spec_bytes() == i.bytes_of(
                self.spec_msg().raw_bytes(),
            ),
    {
        proof {
            use_type_invariant(self);
        }
        match self.msg.nth_arg(0) {
            Some(s) => s,
            None => "",
        }
    }
}

impl<'a> FromIrcMessage<'a> for IrcReady<'a> {
    open spec fn raw_text(self) -> Seq<char> {
        self.spec_msg().spec_raw()
    }

    open spec fn accepts(msg: IrcMessage<'a>) -> bool {
        shape_ok(msg, IrcMessage::IRC_READY, false, true, false)
    }

    fn from_irc(msg: IrcMessage<'a>) -> (r: Result<Self, MessageError>)
        ensures
            shape_result(as_unit(r), msg, IrcMessage::IRC_READY, false, true, false),
            r matches Ok(m) ==> m.spec_msg() == msg,
    {
        match check_shape(&msg, IrcMessage::IRC_READY, false, true, false) {
            Err(e) => Err(e),
            Ok(()) => Ok(IrcReady { msg }),
        }
    }

    fn into_inner(self) -> MaybeOwned<'a> {
        self.msg.into_inner()
    }
}

/// The end of the greeting: the connection is ready.
#[derive(Debug)]
pub struct Ready<'a> {
    msg: IrcMessage<'a>,
}

impl<'a> Ready<'a> {
    #[verifier::type_invariant]
    spec fn inv(self) -> bool {
        shape_ok(self.msg, IrcMessage::READY, false, true, false)
    }

    /// The message this was read from.
    pub closed spec fn spec_msg(self) -> IrcMessage<'a> {
        self.msg
    }

    /// Get the raw message
    pub fn raw(&self) -> (r: &str)
        ensures
            r.spec_bytes() == self.spec_msg().raw_bytes(),
    {
        self.msg.get_raw()
    }

    /// An owned copy of this message.
    pub fn into_owned(self) -> (r: Ready<'static>)
        ensures
            r.spec_msg().raw_bytes() == self.spec_msg().raw_bytes(),
            r.spec_msg().spec_parts() == self.spec_msg().spec_parts(),
    {
        proof {
            use_type_invariant(&self);
        }
        Ready {
            msg: self.msg.into_owned(),
        }
    }

    /// Your username.
    pub fn username(&self) -> (r: &str)
        ensures
            self.spec_msg().spec_nth_arg(0) matches Some(i) && r.spec_bytes() == i.bytes_of(
                self.spec_msg().raw_bytes(),
            ),
    {
        proof {
            use_type_invariant(self);
        }
        match self.msg.nth_arg(0) {
            Some(s) => s,
            None => "",
        }
    }
}

impl<'a> FromIrcMessage<'a> for Ready<'a> {
    open spec fn raw_text(self) -> Seq<char> {
        self.spec_msg().spec_raw()
    }

    open spec fn accepts(msg: IrcMessage<'a>) -> bool {
        shape_ok(msg, IrcMessage::READY, false, true, false)
    }

    fn from_irc(msg: IrcMessage<'a>) -> (r: Result<Self, MessageError>)
        ensures
            shape_result(as_unit(r), msg, IrcMessage::READY, false, true, false),
            r matches Ok(m) ==> m.spec_msg() == msg,
    {
        match check_shape(&msg, IrcMessage::READY, false, true, false) {
            Err(e) => Err(e),
            Ok(()) => Ok(Ready { msg }),
        }
    }

    fn into_inner(self) -> MaybeOwned<'a> {
        self.msg.into_inner()
    }
}

/// Messages of a user, or of the whole channel, were cleared.
#[derive(Debug)]
pub struct ClearChat<'a> {
    msg: IrcMessage<'a>,
}

impl<'a> ClearChat<'a> {
    #[verifier::type_invariant]
    spec fn inv(self) -> bool {
        shape_ok(self.msg, IrcMessage::CLEAR_CHAT, false, true, false)
    }

    /// The message this was read from.
    pub closed spec fn spec_msg(self) -> IrcMessage<'a> {
        self.msg
    }

    /// Get the raw message
    pub fn raw(&self) -> (r: &str)
        ensures
            r.spec_bytes() == self.spec_msg().raw_bytes(),
    {
        self.msg.get_raw()
    }

    /// An owned copy of this message.
    pub fn into_owned(self) -> (r: ClearChat<'static>)
        ensures
            r.spec_msg().raw_bytes() == self.spec_msg().raw_bytes(),
            r.spec_msg().spec_parts() == self.spec_msg().spec_parts(),
    {
        proof {
            use_type_invariant(&self);
        }
        ClearChat {
            msg: self.msg.into_owned(),
        }
    }

    /// The channel.
    pub fn channel(&self) -> (r: &str)
        ensures
            self.spec_msg().spec_nth_arg(0) matches Some(i) && r.spec_bytes() == i.bytes_of(
                self.spec_msg().raw_bytes(),
            ),
    {
        proof {
            use_type_invariant(self);
        }
        match self.msg.nth_arg(0) {
            Some(s) => s,
            None => "",
        }
    }
}

impl<'a> FromIrcMessage<'a> for ClearChat<'a> {
    open spec fn raw_text(self) -> Seq<char> {
        self.spec_msg().spec_raw()
    }

    open spec fn accepts(msg: IrcMessage<'a>) -> bool {
        shape_ok(msg, IrcMessage::CLEAR_CHAT, false, true, false)
    }

    fn from_irc(msg: IrcMessage<'a>) -> (r: Result<Self, MessageError>)
        ensures
            shape_result(as_unit(r), msg, IrcMessage::CLEAR_CHAT, false, true, false),
            r matches Ok(m) ==> m.spec_msg() == msg,
    {
        match check_shape(&msg, IrcMessage::CLEAR_CHAT, false, true, false) {
            Err(e) => Err(e),
            Ok(()) => Ok(ClearChat { msg }),
        }
    }

    fn into_inner(self) -> MaybeOwned<'a> {
        self.msg.into_inner()
    }
}

/// A single message was removed.
#[derive(Debug)]
pub struct ClearMsg<'a> {
    msg: IrcMessage<'a>,
}

impl<'a> ClearMsg<'a> {
    #[verifier::type_invariant]
    spec fn inv(self) -> bool {
        shape_ok(self.msg, IrcMessage::CLEAR_MSG, false, true, true)
    }

    /// The message this was read from.
    pub closed spec fn spec_msg(self) -> IrcMessage<'a> {
        self.msg
    }

    /// Get the raw message
    pub fn raw(&self) -> (r: &str)
        ensures
            r.spec_bytes() == self.spec_msg().raw_bytes(),
    {
        self.msg.get_raw()
    }

    /// An owned copy of this message.
    pub fn into_owned(self) -> (r: ClearMsg<'static>)
        ensures
            r.spec_msg().raw_bytes() == self.spec_msg().raw_bytes(),
            r.spec_msg().spec_parts() == self.spec_msg().spec_parts(),
    {
        proof {
            use_type_invariant(&self);
        }
        ClearMsg {
            msg: self.msg.into_owned(),
        }
    }

    /// The channel.
    pub fn channel(&self) -> (r: &str)
        ensures
            self.spec_msg().spec_nth_arg(0) matches Some(i) && r.spec_bytes() == i.bytes_of(
                self.spec_msg().raw_bytes(),
            ),
    {
        proof {
            use_type_invariant(self);
        }
        match self.msg.nth_arg(0) {
            Some(s) => s,
            None => "",
        }
    }

    /// The removed message.
    pub fn message(&self) -> (r: &str)
        ensures
            self.spec_msg().spec_parts().data matches Some(i) && r.spec_bytes() == i.bytes_of(
                self.spec_msg().raw_bytes(),
            ),
    {
        proof {
            use_type_invariant(self);
        }
        match self.msg.get_data() {
            Some(s) => s,
            None => "",
        }
    }
}

impl<'a> FromIrcMessage<'a> for ClearMsg<'a> {
    open spec fn raw_text(self) -> Seq<char> {
        self.spec_msg().spec_raw()
    }

    open spec fn accepts(msg: IrcMessage<'a>) -> bool {
        shape_ok(msg, IrcMessage::CLEAR_MSG, false, true, true)
    }

    fn from_irc(msg: IrcMessage<'a>) -> (r: Result<Self, MessageError>)
        ensures
            shape_result(as_unit(r), msg, IrcMessage::CLEAR_MSG, false, true, true),
            r matches Ok(m) ==> m.spec_msg() == msg,
    {
        match check_shape(&msg, IrcMessage::CLEAR_MSG, false, true, true) {
            Err(e) => Err(e),
            Ok(()) => Ok(ClearMsg { msg }),
        }
    }

    fn into_inner(self) -> MaybeOwned<'a> {
        self.msg.into_inner()
    }
}

/// Your global chat settings, sent after logging in.
#[derive(Debug)]
pub struct GlobalUserState<'a> {
    msg: IrcMessage<'a>,
    tags: TagIndices,
}

impl<'a> GlobalUserState<'a> {
    #[verifier::type_invariant]
    spec fn inv(self) -> bool {
        shape_ok(self.msg, IrcMessage::GLOBAL_USER_STATE, false, false, false)
            && self.tags.spec_fields() == self.msg.spec_tag_fields()
            && fields_valid_in(self.tags.spec_fields(), self.msg.raw_bytes())
    }

    /// The message this was read from.
    pub closed spec fn spec_msg(self) -> IrcMessage<'a> {
        self.msg
    }

    /// Get the raw message
    pub fn raw(&self) -> (r: &str)
        ensures
            r.spec_bytes() == self.spec_msg().raw_bytes(),
    {
        self.msg.get_raw()
    }

    /// An owned copy of this message.
    pub fn into_owned(self) -> (r: GlobalUserState<'static>)
        ensures
            r.spec_msg().raw_bytes() == self.spec_msg().raw_bytes(),
            r.spec_msg().spec_parts() == self.spec_msg().spec_parts(),
    {
        proof {
            use_type_invariant(&self);
        }
        GlobalUserState {
            msg: self.msg.into_owned(),
            tags: self.tags,
        }
    }

    /// The tags of this message.
    pub fn tags(&self) -> (r: Tags<'_>)
        ensures
            r.spec_data() == self.spec_msg().raw_bytes(),
            r.spec_fields() == self.spec_msg().spec_tag_fields(),
    {
        proof {
            use_type_invariant(self);
        }
        Tags::from_data(self.msg.get_raw(), &self.tags)
    }
}

impl<'a> FromIrcMessage<'a> for GlobalUserState<'a> {
    open spec fn raw_text(self) -> Seq<char> {
        self.spec_msg().spec_raw()
    }

    open spec fn accepts(msg: IrcMessage<'a>) -> bool {
        shape_ok(msg, IrcMessage::GLOBAL_USER_STATE, false, false, false)
    }

    fn from_irc(msg: IrcMessage<'a>) -> (r: Result<Self, MessageError>)
        ensures
            shape_result(as_unit(r), msg, IrcMessage::GLOBAL_USER_STATE, false, false, false),
            r matches Ok(m) ==> m.spec_msg() == msg,
    {
        match check_shape(&msg, IrcMessage::GLOBAL_USER_STATE, false, false, false) {
            Err(e) => Err(e),
            Ok(()) => {
                let tags = msg.parse_tags();
                Ok(GlobalUserState { msg, tags })
            },
        }
    }

    fn into_inner(self) -> MaybeOwned<'a> {
        self.msg.into_inner()
    }
}

/// A user joined a channel.
#[derive(Debug)]
pub struct Join<'a> {
    msg: IrcMessage<'a>,
}

impl<'a> Join<'a> {
    #[verifier::type_invariant]
    spec fn inv(self) -> bool {
        shape_ok(self.msg, IrcMessage::JOIN, true, true, false)
    }

    /// The message this was read from.
    pub closed spec fn spec_msg(self) -> IrcMessage<'a> {
        self.msg
    }

    /// Get the raw message
    pub fn raw(&self) -> (r: &str)
        ensures
            r.spec_bytes() == self.spec_msg().raw_bytes(),
    {
        self.msg.get_raw()
    }

    /// An owned copy of this message.
    pub fn into_owned(self) -> (r: Join<'static>)
        ensures
            r.spec_msg().raw_bytes() == self.spec_msg().raw_bytes(),
            r.spec_msg().spec_parts() == self.spec_msg().spec_parts(),
    {
        proof {
            use_type_invariant(&self);
        }
        Join {
            msg: self.msg.into_owned(),
        }
    }

    /// The user who joined.
    pub fn name(&self) -> (r: &str)
        ensures
            self.spec_msg().spec_parts().prefix matches Some(PrefixIndex::User { nick }) && r.spec_bytes()
                == nick.bytes_of(self.spec_msg().raw_bytes()),
    {
        proof {
            use_type_invariant(self);
        }
        match self.msg.expect_nick() {
            Ok(i) => self.msg.slice(i),
            Err(_) => "",
        }
    }

    /// The channel.
    pub fn channel(&self) -> (r: &str)
        ensures
            self.spec_msg().spec_nth_arg(0) matches Some(i) && r.spec_bytes() == i.bytes_of(
                self.spec_msg().raw_bytes(),
            ),
    {
        proof {
            use_type_invariant(self);
        }
        match self.msg.nth_arg(0) {
            Some(s) => s,
            None => "",
        }
    }
}

impl<'a> FromIrcMessage<'a> for Join<'a> {
    open spec fn raw_text(self) -> Seq<char> {
        self.spec_msg().spec_raw()
    }

    open spec fn accepts(msg: IrcMessage<'a>) -> bool {
        shape_ok(msg, IrcMessage::JOIN, true, true, false)
    }

    fn from_irc(msg: IrcMessage<'a>) -> (r: Result<Self, MessageError>)
        ensures
            shape_result(as_unit(r), msg, IrcMessage::JOIN, true, true, false),
            r matches Ok(m) ==> m.spec_msg() == msg,
    {
        match check_shape(&msg, IrcMessage::JOIN, true, true, false) {
            Err(e) => Err(e),
            Ok(()) => Ok(Join { msg }),
        }
    }

    fn into_inner(self) -> MaybeOwned<'a> {
        self.msg.into_inner()
    }
}

/// A notice from the server.
#[derive(Debug)]
pub struct Notice<'a> {
    msg: IrcMessage<'a>,
    tags: TagIndices,
}

impl<'a> Notice<'a> {
    #[verifier::type_invariant]
    spec fn inv(self) -> bool {
        shape_ok(self.msg, IrcMessage::NOTICE, false, true, true)
            && self.tags.spec_fields() == self.msg.spec_tag_fields()
            && fields_valid_in(self.tags.spec_fields(), self.msg.raw_bytes())
    }

    /// The message this was read from.
    pub closed spec fn spec_msg(self) -> IrcMessage<'a> {
        self.msg
    }

    /// Get the raw message
    pub fn raw(&self) -> (r: &str)
        ensures
            r.spec_bytes() == self.spec_msg().raw_bytes(),
    {
        self.msg.get_raw()
    }

    /// An owned copy of this message.
    pub fn into_owned(self) -> (r: Notice<'static>)
        ensures
            r.spec_msg().raw_bytes() == self.spec_msg().raw_bytes(),
            r.spec_msg().spec_parts() == self.spec_msg().spec_parts(),
    {
        proof {
            use_type_invariant(&self);
        }
        Notice {
            msg: self.msg.into_owned(),
            tags: self.tags,
        }
    }

    /// The channel.
    pub fn channel(&self) -> (r: &str)
        ensures
            self.spec_msg().spec_nth_arg(0) matches Some(i) && r.spec_bytes() == i.bytes_of(
                self.spec_msg().raw_bytes(),
            ),
    {
        proof {
            use_type_invariant(self);
        }
        match self.msg.nth_arg(0) {
            Some(s) => s,
            None => "",
        }
    }

    /// The text of the notice.
    pub fn message(&self) -> (r: &str)
        ensures
            self.spec_msg().spec_parts().data matches Some(i) && r.spec_bytes() == i.bytes_of(
                self.spec_msg().raw_bytes(),
            ),
    {
        proof {
            use_type_invariant(self);
        }
        match self.msg.get_data() {
            Some(s) => s,
            None => "",
        }
    }

    /// The tags of this message.
    pub fn tags(&self) -> (r: Tags<'_>)
        ensures
            r.spec_data() == self.spec_msg().raw_bytes(),
            r.spec_fields() == self.spec_msg().spec_tag_fields(),
    {
        proof {
            use_type_invariant(self);
        }
        Tags::from_data(self.msg.get_raw(), &self.tags)
    }
}

impl<'a> FromIrcMessage<'a> for Notice<'a> {
    open spec fn raw_text(self) -> Seq<char> {
        self.spec_msg().spec_raw()
    }

    open spec fn accepts(msg: IrcMessage<'a>) -> bool {
        shape_ok(msg, IrcMessage::NOTICE, false, true, true)
    }

    fn from_irc(msg: IrcMessage<'a>) -> (r: Result<Self, MessageError>)
        ensures
            shape_result(as_unit(r), msg, IrcMessage::NOTICE, false, true, true),
            r matches Ok(m) ==> m.spec_msg() == msg,
    {
        match check_shape(&msg, IrcMessage::NOTICE, false, true, true) {
            Err(e) => Err(e),
            Ok(()) => {
                let tags = msg.parse_tags();
                Ok(Notice { msg, tags })
            },
        }
    }

    fn into_inner(self) -> MaybeOwned<'a> {
        self.msg.into_inner()
    }
}

/// A user left a channel.
#[derive(Debug)]
pub struct Part<'a> {
    msg: IrcMessage<'a>,
}

impl<'a> Part<'a> {
    #[verifier::type_invariant]
    spec fn inv(self) -> bool {
        shape_ok(self.msg, IrcMessage::PART, true, true, false)
    }

    /// The message this was read from.
    pub closed spec fn spec_msg(self) -> IrcMessage<'a> {
        self.msg
    }

    /// Get the raw message
    pub fn raw(&self) -> (r: &str)
        ensures
            r.spec_bytes() == self.spec_msg().raw_bytes(),
    {
        self.msg.get_raw()
    }

    /// An owned copy of this message.
    pub fn into_owned(self) -> (r: Part<'static>)
        ensures
            r.spec_msg().raw_bytes() == self.spec_msg().raw_bytes(),
            r.spec_msg().spec_parts() == self.spec_msg().spec_parts(),
    {
        proof {
            use_type_invariant(&self);
        }
        Part {
            msg: self.msg.into_owned(),
        }
    }

    /// The user who left.
    pub fn name(&self) -> (r: &str)
        ensures
            self.spec_msg().spec_parts().prefix matches Some(PrefixIndex::User { nick }) && r.spec_bytes()
                == nick.bytes_of(self.spec_msg().raw_bytes()),
    {
        proof {
            use_type_invariant(self);
        }
        match self.msg.expect_nick() {
            Ok(i) => self.msg.slice(i),
            Err(_) => "",
        }
    }

    /// The channel.
    pub fn channel(&self) -> (r: &str)
        ensures
            self.spec_msg().spec_nth_arg(0) matches Some(i) && r.spec_bytes() == i.bytes_of(
                self.spec_msg().raw_bytes(),
            ),
    {
        proof {
            use_type_invariant(self);
        }
        match self.msg.nth_arg(0) {
            Some(s) => s,
            None => "",
        }
    }
}

impl<'a> FromIrcMessage<'a> for Part<'a> {
    open spec fn raw_text(self) -> Seq<char> {
        self.spec_msg().spec_raw()
    }

    open spec fn accepts(msg: IrcMessage<'a>) -> bool {
        shape_ok(msg, IrcMessage::PART, true, true, false)
    }

    fn from_irc(msg: IrcMessage<'a>) -> (r: Result<Self, MessageError>)
        ensures
            shape_result(as_unit(r), msg, IrcMessage::PART, true, true, false),
            r matches Ok(m) ==> m.spec_msg() == msg,
    {
        match check_shape(&msg, IrcMessage::PART, true, true, false) {
            Err(e) => Err(e),
            Ok(()) => Ok(Part { msg }),
        }
    }

    fn into_inner(self) -> MaybeOwned<'a> {
        self.msg.into_inner()
    }
}

/// The server checks that the connection is alive.
#[derive(Debug)]
pub struct Ping<'a> {
    msg: IrcMessage<'a>,
}

impl<'a> Ping<'a> {
    #[verifier::type_invariant]
    spec fn inv(self) -> bool {
        shape_ok(self.msg, IrcMessage::PING, false, false, true)
    }

    /// The message this was read from.
    pub closed spec fn spec_msg(self) -> IrcMessage<'a> {
        self.msg
    }

    /// Get the raw message
    pub fn raw(&self) -> (r: &str)
        ensures
            r.spec_bytes() == self.spec_msg().raw_bytes(),
    {
        self.msg.get_raw()
    }

    /// An owned copy of this message.
    pub fn into_owned(self) -> (r: Ping<'static>)
        ensures
            r.spec_msg().raw_bytes() == self.spec_msg().raw_bytes(),
            r.spec_msg().spec_parts() == self.spec_msg().spec_parts(),
    {
        proof {
            use_type_invariant(&self);
        }
        Ping {
            msg: self.msg.into_owned(),
        }
    }

    /// The token to send back.
    pub fn token(&self) -> (r: &str)
        ensures
            self.spec_msg().spec_parts().data matches Some(i) && r.spec_bytes() == i.bytes_of(
                self.spec_msg().raw_bytes(),
            ),
    {
        proof {
            use_type_invariant(self);
        }
        match self.msg.get_data() {
            Some(s) => s,
            None => "",
        }
    }
}

impl<'a> FromIrcMessage<'a> for Ping<'a> {
    open spec fn raw_text(self) -> Seq<char> {
        self.spec_msg().spec_raw()
    }

    open spec fn accepts(msg: IrcMessage<'a>) -> bool {
        shape_ok(msg, IrcMessage::PING, false, false, true)
    }

    fn from_irc(msg: IrcMessage<'a>) -> (r: Result<Self, MessageError>)
        ensures
            shape_result(as_unit(r), msg, IrcMessage::PING, false, false, true),
            r matches Ok(m) ==> m.spec_msg() == msg,
    {
        match check_shape(&msg, IrcMessage::PING, false, false, true) {
            Err(e) => Err(e),
            Ok(()) => Ok(Ping { msg }),
        }
    }

    fn into_inner(self) -> MaybeOwned<'a> {
        self.msg.into_inner()
    }
}

/// The server's answer to a `PING`.
#[derive(Debug)]
pub struct Pong<'a> {
    msg: IrcMessage<'a>,
}

impl<'a> Pong<'a> {
    #[verifier::type_invariant]
    spec fn inv(self) -> bool {
        shape_ok(self.msg, IrcMessage::PONG, false, false, true)
    }

    /// The message this was read from.
    pub closed spec fn spec_msg(self) -> IrcMessage<'a> {
        self.msg
    }

    /// Get the raw message
    pub fn raw(&self) -> (r: &str)
        ensures
            r.spec_bytes() == self.spec_msg().raw_bytes(),
    {
        self.msg.get_raw()
    }

    /// An owned copy of this message.
    pub fn into_owned(self) -> (r: Pong<'static>)
        ensures
            r.spec_msg().raw_bytes() == self.spec_msg().raw_bytes(),
            r.spec_msg().spec_parts() == self.spec_msg().spec_parts(),
    {
        proof {
            use_type_invariant(&self);
        }
        Pong {
            msg: self.msg.into_owned(),
        }
    }

    /// The token that was sent.
    pub fn token(&self) -> (r: &str)
        ensures
            self.spec_msg().spec_parts().data matches Some(i) && r.spec_bytes() == i.bytes_of(
                self.spec_msg().raw_bytes(),
            ),
    {
        proof {
            use_type_invariant(self);
        }
        match self.msg.get_data() {
            Some(s) => s,
            None => "",
        }
    }
}

impl<'a> FromIrcMessage<'a> for Pong<'a> {
    open spec fn raw_text(self) -> Seq<char> {
        self.spec_msg().spec_raw()
    }

    open spec fn accepts(msg: IrcMessage<'a>) -> bool {
        shape_ok(msg, IrcMessage::PONG, false, false, true)
    }

    fn from_irc(msg: IrcMessage<'a>) -> (r: Result<Self, MessageError>)
        ensures
            shape_result(as_unit(r), msg, IrcMessage::PONG, false, false, true),
            r matches Ok(m) ==> m.spec_msg() == msg,
    {
        match check_shape(&msg, IrcMessage::PONG, false, false, true) {
            Err(e) => Err(e),
            Ok(()) => Ok(Pong { msg }),
        }
    }

    fn into_inner(self) -> MaybeOwned<'a> {
        self.msg.into_inner()
    }
}

/// A chat message.
#[derive(Debug)]
pub struct Privmsg<'a> {
    msg: IrcMessage<'a>,
    tags: TagIndices,
}

impl<'a> Privmsg<'a> {
    #[verifier::type_invariant]
    spec fn inv(self) -> bool {
        shape_ok(self.msg, IrcMessage::PRIVMSG, true, true, true)
            && self.tags.spec_fields() == self.msg.spec_tag_fields()
            && fields_valid_in(self.tags.spec_fields(), self.msg.raw_bytes())
    }

    /// The message this was read from.
    pub closed spec fn spec_msg(self) -> IrcMessage<'a> {
        self.msg
    }

    /// Get the raw message
    pub fn raw(&self) -> (r: &str)
        ensures
            r.spec_bytes() == self.spec_msg().raw_bytes(),
    {
        self.msg.get_raw()
    }

    /// An owned copy of this message.
    pub fn into_owned(self) -> (r: Privmsg<'static>)
        ensures
            r.spec_msg().raw_bytes() == self.spec_msg().raw_bytes(),
            r.spec_msg().spec_parts() == self.spec_msg().spec_parts(),
    {
        proof {
            use_type_invariant(&self);
        }
        Privmsg {
            msg: self.msg.into_owned(),
            tags: self.tags,
        }
    }

    /// The sender.
    pub fn name(&self) -> (r: &str)
        ensures
            self.spec_msg().spec_parts().prefix matches Some(PrefixIndex::User { nick }) && r.spec_bytes()
                == nick.bytes_of(self.spec_msg().raw_bytes()),
    {
        proof {
            use_type_invariant(self);
        }
        match self.msg.expect_nick() {
            Ok(i) => self.msg.slice(i),
            Err(_) => "",
        }
    }

    /// The channel.
    pub fn channel(&self) -> (r: &str)
        ensures
            self.spec_msg().spec_nth_arg(0) matches Some(i) && r.spec_bytes() == i.bytes_of(
                self.spec_msg().raw_bytes(),
            ),
    {
        proof {
            use_type_invariant(self);
        }
        match self.msg.nth_arg(0) {
            Some(s) => s,
            None => "",
        }
    }

    /// The message.
    pub fn data(&self) -> (r: &str)
        ensures
            self.spec_msg().spec_parts().data matches Some(i) && r.spec_bytes() == i.bytes_of(
                self.spec_msg().raw_bytes(),
            ),
    {
        proof {
            use_type_invariant(self);
        }
        match self.msg.get_data() {
            Some(s) => s,
            None => "",
        }
    }

    /// The tags of this message.
    pub fn tags(&self) -> (r: Tags<'_>)
        ensures
            r.spec_data() == self.spec_msg().raw_bytes(),
            r.spec_fields() == self.spec_msg().spec_tag_fields(),
    {
        proof {
            use_type_invariant(self);
        }
        Tags::from_data(self.msg.get_raw(), &self.tags)
    }
}

impl<'a> FromIrcMessage<'a> for Privmsg<'a> {
    open spec fn raw_text(self) -> Seq<char> {
        self.spec_msg().spec_raw()
    }

    open spec fn accepts(msg: IrcMessage<'a>) -> bool {
        shape_ok(msg, IrcMessage::PRIVMSG, true, true, true)
    }

    fn from_irc(msg: IrcMessage<'a>) -> (r: Result<Self, MessageError>)
        ensures
            shape_result(as_unit(r), msg, IrcMessage::PRIVMSG, true, true, true),
            r matches Ok(m) ==> m.spec_msg() == msg,
    {
        match check_shape(&msg, IrcMessage::PRIVMSG, true, true, true) {
            Err(e) => Err(e),
            Ok(()) => {
                let tags = msg.parse_tags();
                Ok(Privmsg { msg, tags })
            },
        }
    }

    fn into_inner(self) -> MaybeOwned<'a> {
        self.msg.into_inner()
    }
}

/// The settings of a channel.
#[derive(Debug)]
pub struct RoomState<'a> {
    msg: IrcMessage<'a>,
    tags: TagIndices,
}

impl<'a> RoomState<'a> {
    #[verifier::type_invariant]
    spec fn inv(self) -> bool {
        shape_ok(self.msg, IrcMessage::ROOM_STATE, false, true, false)
            && self.tags.spec_fields() == self.msg.spec_tag_fields()
            && fields_valid_in(self.tags.spec_fields(), self.msg.raw_bytes())
    }

    /// The message this was read from.
    pub closed spec fn spec_msg(self) -> IrcMessage<'a> {
        self.msg
    }

    /// Get the raw message
    pub fn raw(&self) -> (r: &str)
        ensures
            r.spec_bytes() == self.spec_msg().raw_bytes(),
    {
        self.msg.get_raw()
    }

    /// An owned copy of this message.
    pub fn into_owned(self) -> (r: RoomState<'static>)
        ensures
            r.spec_msg().raw_bytes() == self.spec_msg().raw_bytes(),
            r.spec_msg().spec_parts() == self.spec_msg().spec_parts(),
    {
        proof {
            use_type_invariant(&self);
        }
        RoomState {
            msg: self.msg.into_owned(),
            tags: self.tags,
        }
    }

    /// The channel.
    pub fn channel(&self) -> (r: &str)
        ensures
            self.spec_msg().spec_nth_arg(0) matches Some(i) && r.spec_bytes() == i.bytes_of(
                self.spec_msg().raw_bytes(),
            ),
    {
        proof {
            use_type_invariant(self);
        }
        match self.msg.nth_arg(0) {
            Some(s) => s,
            None => "",
        }
    }

    /// The tags of this message.
    pub fn tags(&self) -> (r: Tags<'_>)
        ensures
            r.spec_data() == self.spec_msg().raw_bytes(),
            r.spec_fields() == self.spec_msg().spec_tag_fields(),
    {
        proof {
            use_type_invariant(self);
        }
        Tags::from_data(self.msg.get_raw(), &self.tags)
    }

    /// The delay, in seconds, between messages when the channel is in slow mode: the `slow`
    /// tag read as a number, when it is more than 0.
    pub fn is_slow_mode(&self) -> (r: Option<u64>)
        ensures
            r == match tag_lookup(self.spec_msg().spec_tag_fields(), self.spec_msg().raw_bytes(), "slow".spec_bytes()) {
                Some(v) => match spec_parse_usize(v.bytes_of(self.spec_msg().raw_bytes())) {
                    Some(n) => if n > 0 { Some(n as u64) } else { None },
                    None => None,
                },
                None => None,
            },
    {
        let tags = self.tags();
        match tags.get("slow") {
            Some(v) => match parse_usize(v.as_bytes()) {
                Some(n) => if n > 0 { Some(n as u64) } else { None },
                None => None,
            },
            None => None,
        }
    }
}

impl<'a> FromIrcMessage<'a> for RoomState<'a> {
    open spec fn raw_text(self) -> Seq<char> {
        self.spec_msg().spec_raw()
    }

    open spec fn accepts(msg: IrcMessage<'a>) -> bool {
        shape_ok(msg, IrcMessage::ROOM_STATE, false, true, false)
    }

    fn from_irc(msg: IrcMessage<'a>) -> (r: Result<Self, MessageError>)
        ensures
            shape_result(as_unit(r), msg, IrcMessage::ROOM_STATE, false, true, false),
            r matches Ok(m) ==> m.spec_msg() == msg,
    {
        match check_shape(&msg, IrcMessage::ROOM_STATE, false, true, false) {
            Err(e) => Err(e),
            Ok(()) => {
                let tags = msg.parse_tags();
                Ok(RoomState { msg, tags })
            },
        }
    }

    fn into_inner(self) -> MaybeOwned<'a> {
        self.msg.into_inner()
    }
}

/// An event in a channel, such as a subscription.
#[derive(Debug)]
pub struct UserNotice<'a> {
    msg: IrcMessage<'a>,
    tags: TagIndices,
}

impl<'a> UserNotice<'a> {
    #[verifier::type_invariant]
    spec fn inv(self) -> bool {
        shape_ok(self.msg, IrcMessage::USER_NOTICE, false, true, false)
            && self.tags.spec_fields() == self.msg.spec_tag_fields()
            && fields_valid_in(self.tags.spec_fields(), self.msg.raw_bytes())
    }

    /// The message this was read from.
    pub closed spec fn spec_msg(self) -> IrcMessage<'a> {
        self.msg
    }

    /// Get the raw message
    pub fn raw(&self) -> (r: &str)
        ensures
            r.spec_bytes() == self.spec_msg().raw_bytes(),
    {
        self.msg.get_raw()
    }

    /// An owned copy of this message.
    pub fn into_owned(self) -> (r: UserNotice<'static>)
        ensures
            r.spec_msg().raw_bytes() == self.spec_msg().raw_bytes(),
            r.spec_msg().spec_parts() == self.spec_msg().spec_parts(),
    {
        proof {
            use_type_invariant(&self);
        }
        UserNotice {
            msg: self.msg.into_owned(),
            tags: self.tags,
        }
    }

    /// The channel.
    pub fn channel(&self) -> (r: &str)
        ensures
            self.spec_msg().spec_nth_arg(0) matches Some(i) && r.spec_bytes() == i.bytes_of(
                self.spec_msg().raw_bytes(),
            ),
    {
        proof {
            use_type_invariant(self);
        }
        match self.msg.nth_arg(0) {
            Some(s) => s,
            None => "",
        }
    }

    /// The tags of this message.
    pub fn tags(&self) -> (r: Tags<'_>)
        ensures
            r.spec_data() == self.spec_msg().raw_bytes(),
            r.spec_fields() == self.spec_msg().spec_tag_fields(),
    {
        proof {
            use_type_invariant(self);
        }
        Tags::from_data(self.msg.get_raw(), &self.tags)
    }
}

impl<'a> FromIrcMessage<'a> for UserNotice<'a> {
    open spec fn raw_text(self) -> Seq<char> {
        self.spec_msg().spec_raw()
    }

    open spec fn accepts(msg: IrcMessage<'a>) -> bool {
        shape_ok(msg, IrcMessage::USER_NOTICE, false, true, false)
    }

    fn from_irc(msg: IrcMessage<'a>) -> (r: Result<Self, MessageError>)
        ensures
            shape_result(as_unit(r), msg, IrcMessage::USER_NOTICE, false, true, false),
            r matches Ok(m) ==> m.spec_msg() == msg,
    {
        match check_shape(&msg, IrcMessage::USER_NOTICE, false, true, false) {
            Err(e) => Err(e),
            Ok(()) => {
                let tags = msg.parse_tags();
                Ok(UserNotice { msg, tags })
            },
        }
    }

    fn into_inner(self) -> MaybeOwned<'a> {
        self.msg.into_inner()
    }
}

/// A private message.
#[derive(Debug)]
pub struct Whisper<'a> {
    msg: IrcMessage<'a>,
    tags: TagIndices,
}

impl<'a> Whisper<'a> {
    #[verifier::type_invariant]
    spec fn inv(self) -> bool {
        shape_ok(self.msg, IrcMessage::WHISPER, true, false, true)
            && self.tags.spec_fields() == self.msg.spec_tag_fields()
            && fields_valid_in(self.tags.spec_fields(), self.msg.raw_bytes())
    }

    /// The message this was read from.
    pub closed spec fn spec_msg(self) -> IrcMessage<'a> {
        self.msg
    }

    /// Get the raw message
    pub fn raw(&self) -> (r: &str)
        ensures
            r.spec_bytes() == self.spec_msg().raw_bytes(),
    {
        self.msg.get_raw()
    }

    /// An owned copy of this message.
    pub fn into_owned(self) -> (r: Whisper<'static>)
        ensures
            r.spec_msg().raw_bytes() == self.spec_msg().raw_bytes(),
            r.spec_msg().spec_parts() == self.spec_msg().spec_parts(),
    {
        proof {
            use_type_invariant(&self);
        }
        Whisper {
            msg: self.msg.into_owned(),
            tags: self.tags,
        }
    }

    /// The sender.
    pub fn name(&self) -> (r: &str)
        ensures
            self.spec_msg().spec_parts().prefix matches Some(PrefixIndex::User { nick }) && r.spec_bytes()
                == nick.bytes_of(self.spec_msg().raw_bytes()),
    {
        proof {
            use_type_invariant(self);
        }
        match self.msg.expect_nick() {
            Ok(i) => self.msg.slice(i),
            Err(_) => "",
        }
    }

    /// The message.
    pub fn data(&self) -> (r: &str)
        ensures
            self.spec_msg().spec_parts().data matches Some(i) && r.spec_bytes() == i.bytes_of(
                self.spec_msg().raw_bytes(),
            ),
    {
        proof {
            use_type_invariant(self);
        }
        match self.msg.get_data() {
            Some(s) => s,
            None => "",
        }
    }

    /// The tags of this message.
    pub fn tags(&self) -> (r: Tags<'_>)
        ensures
            r.spec_data() == self.spec_msg().raw_bytes(),
            r.spec_fields() == self.spec_msg().spec_tag_fields(),
    {
        proof {
            use_type_invariant(self);
        }
        Tags::from_data(self.msg.get_raw(), &self.tags)
    }
}

impl<'a> FromIrcMessage<'a> for Whisper<'a> {
    open spec fn raw_text(self) -> Seq<char> {
        self.spec_msg().spec_raw()
    }

    open spec fn accepts(msg: IrcMessage<'a>) -> bool {
        shape_ok(msg, IrcMessage::WHISPER, true, false, true)
    }

    fn from_irc(msg: IrcMessage<'a>) -> (r: Result<Self, MessageError>)
        ensures
            shape_result(as_unit(r), msg, IrcMessage::WHISPER, true, false, true),
            r matches Ok(m) ==> m.spec_msg() == msg,
    {
        match check_shape(&msg, IrcMessage::WHISPER, true, false, true) {
            Err(e) => Err(e),
            Ok(()) => {
                let tags = msg.parse_tags();
                Ok(Whisper { msg, tags })
            },
        }
    }

    fn into_inner(self) -> MaybeOwned<'a> {
        self.msg.into_inner()
    }
}


impl<'a> Clone for IrcReady<'a> {
    fn clone(&self) -> (r: Self)
        ensures
            r.spec_msg().raw_bytes() == self.spec_msg().raw_bytes(),
            r.spec_msg().spec_parts() == self.spec_msg().spec_parts(),
    {
        proof {
            use_type_invariant(self);
        }
        IrcReady {
            msg: self.msg.clone(),
        }
    }
}

impl<'a> Clone for Ready<'a> {
    fn clone(&self) -> (r: Self)
        ensures
            r.spec_msg().raw_bytes() == self.spec_msg().raw_bytes(),
            r.spec_msg().spec_parts() == self.spec_msg().spec_parts(),
    {
        proof {
            use_type_invariant(self);
        }
        Ready {
            msg: self.msg.clone(),
        }
    }
}

impl<'a> Clone for ClearChat<'a> {
    fn clone(&self) -> (r: Self)
        ensures
            r.spec_msg().raw_bytes() == self.spec_msg().raw_bytes(),
            r.spec_msg().spec_parts() == self.spec_msg().spec_parts(),
    {
        proof {
            use_type_invariant(self);
        }
        ClearChat {
            msg: self.msg.clone(),
        }
    }
}

impl<'a> Clone for ClearMsg<'a> {
    fn clone(&self) -> (r: Self)
        ensures
            r.spec_msg().raw_bytes() == self.spec_msg().raw_bytes(),
            r.spec_msg().spec_parts() == self.spec_msg().spec_parts(),
    {
        proof {
            use_type_invariant(self);
        }
        ClearMsg {
            msg: self.msg.clone(),
        }
    }
}

impl<'a> Clone for GlobalUserState<'a> {
    fn clone(&self) -> (r: Self)
        ensures
            r.spec_msg().raw_bytes() == self.spec_msg().raw_bytes(),
            r.spec_msg().spec_parts() == self.spec_msg().spec_parts(),
    {
        proof {
            use_type_invariant(self);
        }
        GlobalUserState {
            msg: self.msg.clone(),
            tags: self.tags.clone(),
        }
    }
}

impl<'a> Clone for Join<'a> {
    fn clone(&self) -> (r: Self)
        ensures
            r.spec_msg().raw_bytes() == self.spec_msg().raw_bytes(),
            r.spec_msg().spec_parts() == self.spec_msg().spec_parts(),
    {
        proof {
            use_type_invariant(self);
        }
        Join {
            msg: self.msg.clone(),
        }
    }
}

impl<'a> Clone for Notice<'a> {
    fn clone(&self) -> (r: Self)
        ensures
            r.spec_msg().raw_bytes() == self.spec_msg().raw_bytes(),
            r.spec_msg().spec_parts() == self.spec_msg().spec_parts(),
    {
        proof {
            use_type_invariant(self);
        }
        Notice {
            msg: self.msg.clone(),
            tags: self.tags.clone(),
        }
    }
}

impl<'a> Clone for Part<'a> {
    fn clone(&self) -> (r: Self)
        ensures
            r.spec_msg().raw_bytes() == self.spec_msg().raw_bytes(),
            r.spec_msg().spec_parts() == self.spec_msg().spec_parts(),
    {
        proof {
            use_type_invariant(self);
        }
        Part {
            msg: self.msg.clone(),
        }
    }
}

impl<'a> Clone for Ping<'a> {
    fn clone(&self) -> (r: Self)
        ensures
            r.spec_msg().raw_bytes() == self.spec_msg().raw_bytes(),
            r.spec_msg().spec_parts() == self.spec_msg().spec_parts(),
    {
        proof {
            use_type_invariant(self);
        }
        Ping {
            msg: self.msg.clone(),
        }
    }
}

impl<'a> Clone for Pong<'a> {
    fn clone(&self) -> (r: Self)
        ensures
            r.spec_msg().raw_bytes() == self.spec_msg().raw_bytes(),
            r.spec_msg().spec_parts() == self.spec_msg().spec_parts(),
    {
        proof {
            use_type_invariant(self);
        }
        Pong {
            msg: self.msg.clone(),
        }
    }
}

impl<'a> Clone for Privmsg<'a> {
    fn clone(&self) -> (r: Self)
        ensures
            r.spec_msg().raw_bytes() == self.spec_msg().raw_bytes(),
            r.spec_msg().spec_parts() == self.spec_msg().spec_parts(),
    {
        proof {
            use_type_invariant(self);
        }
        Privmsg {
            msg: self.msg.clone(),
            tags: self.tags.clone(),
        }
    }
}

impl<'a> Clone for RoomState<'a> {
    fn clone(&self) -> (r: Self)
        ensures
            r.spec_msg().raw_bytes() == self.spec_msg().raw_bytes(),
            r.spec_msg().spec_parts() == self.spec_msg().spec_parts(),
    {
        proof {
            use_type_invariant(self);
        }
        RoomState {
            msg: self.msg.clone(),
            tags: self.tags.clone(),
        }
    }
}

impl<'a> Clone for UserNotice<'a> {
    fn clone(&self) -> (r: Self)
        ensures
            r.spec_msg().raw_bytes() == self.spec_msg().raw_bytes(),
            r.spec_msg().spec_parts() == self.spec_msg().spec_parts(),
    {
        proof {
            use_type_invariant(self);
        }
        UserNotice {
            msg: self.msg.clone(),
            tags: self.tags.clone(),
        }
    }
}

impl<'a> Clone for Whisper<'a> {
    fn clone(&self) -> (r: Self)
        ensures
            r.spec_msg().raw_bytes() == self.spec_msg().raw_bytes(),
            r.spec_msg().spec_parts() == self.spec_msg().spec_parts(),
    {
        proof {
            use_type_invariant(self);
        }
        Whisper {
            msg: self.msg.clone(),
            tags: self.tags.clone(),
        }
    }
}

} // verus!
