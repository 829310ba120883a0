//! A user's chat settings on a channel.
use vstd::prelude::*;
use vstd::string::StringSliceAdditionalSpecFns;
use crate::irc::error::MessageError;
use crate::irc::message::IrcMessage;
use crate::irc::tags::{TagIndices, Tags, fields_valid_in, tag_lookup};
use crate::irc::FromIrcMessage;
use crate::maybe_owned::{MaybeOwned, MaybeOwnedIndex};
use crate::messages::shape::as_unit;

verus! {

broadcast use vstd::string::group_string_axioms;

/// Identifies a user's chat settings or properties (e.g., chat color)..
#[derive(Debug)]
pub struct UserState<'t> {
    msg: IrcMessage<'t>,
    tags: TagIndices,
    channel: MaybeOwnedIndex,
}

/// `r` is the outcome of reading a `USERSTATE` message from `msg`: the command, then the first
/// argument (the channel) must be present.
pub open spec fn user_state_result(r: Result<(), MessageError>, msg: IrcMessage) -> bool {
    if !msg.has_command(IrcMessage::USER_STATE) {
        r matches Err(MessageError::InvalidCommand { .. })
    } else if msg.spec_nth_arg_index(0) is None {
        r matches Err(MessageError::ExpectedArg { pos }) && pos == 0
    } else {
        r is Ok
    }
}

impl<'t> UserState<'t> {
    #[verifier::type_invariant]
    spec fn inv(self) -> bool {
        &&& self.tags.spec_fields() == self.msg.spec_tag_fields()
        &&& fields_valid_in(self.tags.spec_fields(), self.msg.raw_bytes())
        &&& self.channel.valid_in(self.msg.raw_bytes())
    }

    /// The message this was read from.
    pub closed spec fn spec_msg(self) -> IrcMessage<'t> {
        self.msg
    }

    /// The position of the channel.
    pub closed spec fn spec_channel(self) -> MaybeOwnedIndex {
        self.channel
    }

    /// Get the raw message
    pub fn raw(&self) -> (r: &str)
        ensures
            r.spec_bytes() == self.spec_msg().raw_bytes(),
    {
        self.msg.get_raw()
    }

    /// The tags of this message.
    pub fn tags(&self) -> (r: Tags<'_>)
        ensures
            r.spec_data() == self.spec_msg().raw_bytes(),
            r.spec_fields() == self.spec_msg().spec_tag_fields(),
    {
        proof {
            use_type_invariant(self);
        }
        Tags::from_data(self.msg.get_raw(), &self.tags)
    }

    /// Channel this event happened on
    pub fn channel(&self) -> (r: &str)
        ensures
            r.spec_bytes() == self.spec_channel().bytes_of(self.spec_msg().raw_bytes()),
    {
        proof {
            use_type_invariant(self);
        }
        self.msg.slice(self.channel)
    }

    /// The user's display name, if set
    pub fn display_name(&self) -> (r: Option<&str>)
        ensures
            match tag_lookup(self.spec_msg().spec_tag_fields(), self.spec_msg().raw_bytes(), "display-name".spec_bytes()) {
                Some(v) => r matches Some(s) && s.spec_bytes() == v.bytes_of(self.spec_msg().raw_bytes()),
                None => r is None,
            },
    {
        self.tags().get("display-name")
    }

    /// Whether this user is a moderator
    pub fn is_moderator(&self) -> (r: bool)
        ensures
            r == (tag_lookup(self.spec_msg().spec_tag_fields(), self.spec_msg().raw_bytes(), "mod".spec_bytes()) matches Some(v)
                && v.bytes_of(self.spec_msg().raw_bytes()) == "1".spec_bytes()),
    {
        self.tags().get_as_bool("mod")
    }

    /// An owned copy of this message.
    pub fn into_owned(self) -> (r: UserState<'static>)
        ensures
            r.spec_msg().raw_bytes() == self.spec_msg().raw_bytes(),
            r.spec_msg().spec_parts() == self.spec_msg().spec_parts(),
            r.spec_channel() == self.spec_channel(),
    {
        proof {
            use_type_invariant(&self);
        }
        UserState { msg: self.msg.into_owned(), tags: self.tags, channel: self.channel }
    }
}

impl<'t> FromIrcMessage<'t> for UserState<'t> {
    open spec fn raw_text(self) -> Seq<char> {
        self.spec_msg().spec_raw()
    }

    open spec fn accepts(msg: IrcMessage<'t>) -> bool {
        user_state_result(Ok(()), msg)
    }

    fn from_irc(msg: IrcMessage<'t>) -> (r: Result<Self, MessageError>)
        ensures
            user_state_result(as_unit(r), msg),
            r matches Ok(u) ==> u.spec_msg() == msg && msg.spec_nth_arg_index(0) == Some(
                u.spec_channel(),
            ),
    {
        match msg.expect_command(IrcMessage::USER_STATE) {
            Err(e) => return Err(e),
            Ok(()) => {},
        }
        let tags = msg.parse_tags();
        let channel = match msg.expect_arg_index(0) {
            Err(e) => return Err(e),
            Ok(i) => i,
        };
        Ok(UserState { msg, tags, channel })
    }

    fn into_inner(self) -> MaybeOwned<'t> {
        self.msg.into_inner()
    }
}


impl<'t> Clone for UserState<'t> {
    fn clone(&self) -> (r: Self)
        ensures
            r.spec_msg().raw_bytes() == self.spec_msg().raw_bytes(),
            r.spec_msg().spec_parts() == self.spec_msg().spec_parts(),
            r.spec_channel() == self.spec_channel(),
    {
        proof {
            use_type_invariant(self);
        }
        UserState { msg: self.msg.clone(), tags: self.tags.clone(), channel: self.channel }
    }
}

} // verus!
