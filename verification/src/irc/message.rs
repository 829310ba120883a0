//! A parsed IRC message: the raw line and the positions of its parts.
use vstd::prelude::*;
use vstd::string::StringSliceAdditionalSpecFns;
use vstd::utf8::encode_utf8;
use crate::maybe_owned::{MaybeOwned, MaybeOwnedIndex, spec_index};
use crate::irc::prefix::{Prefix, PrefixIndex};
use crate::irc::parser::{Parts, spec_parse_parts, parse_parts};
use crate::irc::error::MessageError;
use crate::irc::tags::{TagIndices, tag_fields, fields_valid_in};
use crate::text::{nth_token, nth_field, nth_token_exec, nth_field_exec, str_eq, singly_spaced, lemma_tokens_are_fields};

verus! {

broadcast use vstd::string::group_string_axioms, vstd::utf8::encode_utf8_valid_utf8;

/// `r` is the substring at `i` of `b` when `i` is present, and absent otherwise.
pub open spec fn str_at(r: Option<&str>, i: Option<MaybeOwnedIndex>, b: Seq<u8>) -> bool {
    match i {
        Some(i) => r matches Some(s) && s.spec_bytes() == i.bytes_of(b),
        None => r is None,
    }
}

/// The byte range `(s, e)` as an index, when present.
pub open spec fn range_index(r: Option<(int, int)>) -> Option<MaybeOwnedIndex> {
    match r {
        Some((s, e)) => Some(spec_index(s, e)),
        None => None,
    }
}

impl<'a> Clone for IrcMessage<'a> {
    fn clone(&self) -> (r: Self)
        ensures
            r.spec_raw() == self.spec_raw(),
            r.raw_bytes() == self.raw_bytes(),
            r.spec_parts() == self.spec_parts(),
    {
        proof {
            use_type_invariant(self);
        }
        IrcMessage {
            raw: self.raw.clone(),
            tags: self.tags,
            prefix: self.prefix,
            command: self.command,
            args: self.args,
            data: self.data,
        }
    }
}

/// The `nth` argument of the message `b` with the parts `parts` (whitespace-separated, empty
/// runs skipped).
pub open spec fn args_nth(b: Seq<u8>, parts: Parts, nth: nat) -> Option<MaybeOwnedIndex> {
    match parts.args {
        Some(a) => range_index(nth_token(b, a.start as int, a.end as int, nth)),
        None => None,
    }
}

/// What parsing `input` gives: a message that keeps `input` as it is, with the parts of its
/// line, or `EmptyMessage` when the line holds nothing but whitespace.
pub open spec fn parse_result<'a>(input: MaybeOwned<'a>, r: Result<IrcMessage<'a>, MessageError>) -> bool {
    match spec_parse_parts(input.bytes()) {
        Some(parts) => r matches Ok(m) && m.spec_raw_value() == input && m.spec_raw() == input@
            && m.raw_bytes() == input.bytes() && m.spec_parts() == parts,
        None => r matches Err(MessageError::EmptyMessage),
    }
}

/// A raw irc message `@tags :prefix COMMAND args :data\r\n`
#[derive(Debug)]
pub struct IrcMessage<'a> {
    /// The raw string
    pub(crate) raw: MaybeOwned<'a>,
    /// Index of the tags
    pub(crate) tags: Option<MaybeOwnedIndex>,
    /// Index of the prefix
    pub(crate) prefix: Option<PrefixIndex>,
    /// Index of the command
    pub(crate) command: MaybeOwnedIndex,
    /// Index of the args
    pub(crate) args: Option<MaybeOwnedIndex>,
    /// Index of the data
    pub(crate) data: Option<MaybeOwnedIndex>,
}

impl<'a> IrcMessage<'a> {
    /// The command of the first message after registering: `001`
    pub const IRC_READY: &'static str = "001";
    /// The command of the message that ends the greeting: `376`
    pub const READY: &'static str = "376";
    /// `CAP`
    pub const CAP: &'static str = "CAP";
    /// `CLEARCHAT`
    pub const CLEAR_CHAT: &'static str = "CLEARCHAT";
    /// `CLEARMSG`
    pub const CLEAR_MSG: &'static str = "CLEARMSG";
    /// `GLOBALUSERSTATE`
    pub const GLOBAL_USER_STATE: &'static str = "GLOBALUSERSTATE";
    /// `HOSTTARGET`
    pub const HOST_TARGET: &'static str = "HOSTTARGET";
    /// `JOIN`
    pub const JOIN: &'static str = "JOIN";
    /// `NOTICE`
    pub const NOTICE: &'static str = "NOTICE";
    /// `PART`
    pub const PART: &'static str = "PART";
    /// `PING`
    pub const PING: &'static str = "PING";
    /// `PONG`
    pub const PONG: &'static str = "PONG";
    /// `PRIVMSG`
    pub const PRIVMSG: &'static str = "PRIVMSG";
    /// `RECONNECT`
    pub const RECONNECT: &'static str = "RECONNECT";
    /// `ROOMSTATE`
    pub const ROOM_STATE: &'static str = "ROOMSTATE";
    /// `USERNOTICE`
    pub const USER_NOTICE: &'static str = "USERNOTICE";
    /// `USERSTATE`
    pub const USER_STATE: &'static str = "USERSTATE";
    /// `WHISPER`
    pub const WHISPER: &'static str = "WHISPER";

    #[verifier::type_invariant]
    spec fn inv(self) -> bool {
        &&& self.raw.bytes().len() <= u16::MAX
        &&& self.spec_parts().valid_in(self.raw.bytes())
    }

    /// The raw string as it was given, borrowed or owned.
    pub closed spec fn spec_raw_value(self) -> MaybeOwned<'a> {
        self.raw
    }

    /// The raw string.
    pub closed spec fn spec_raw(self) -> Seq<char> {
        self.raw@
    }

    /// The UTF-8 bytes of the raw string.
    pub closed spec fn raw_bytes(self) -> Seq<u8> {
        self.raw.bytes()
    }

    /// The positions of the parts of this message.
    pub closed spec fn spec_parts(self) -> Parts {
        Parts {
            tags: self.tags,
            prefix: self.prefix,
            command: self.command,
            args: self.args,
            data: self.data,
        }
    }

    /// The command of this message.
    pub open spec fn command_bytes(self) -> Seq<u8> {
        self.spec_parts().command.bytes_of(self.raw_bytes())
    }

    /// The `nth` argument (whitespace-separated, empty runs skipped).
    pub open spec fn spec_nth_arg(self, nth: nat) -> Option<MaybeOwnedIndex> {
        args_nth(self.raw_bytes(), self.spec_parts(), nth)
    }

    /// The `nth` argument field (every whitespace byte separates two fields).
    pub open spec fn spec_nth_arg_index(self, nth: nat) -> Option<MaybeOwnedIndex> {
        match self.spec_parts().args {
            Some(a) => range_index(nth_field(self.raw_bytes(), a.start as int, a.end as int, nth)),
            None => None,
        }
    }

    /// Parse one line (an optional final `\r\n` is ignored).
    ///
    /// This stores the original input, including any surrounding whitespace.
    pub fn parse(input: MaybeOwned<'a>) -> (r: Result<Self, MessageError>)
        requires
            input.bytes().len() <= u16::MAX,
        ensures
            parse_result(input, r),
    {
        let parts = parse_parts(input.as_str().as_bytes());
        match parts {
            None => Err(MessageError::EmptyMessage),
            Some(p) => Ok(IrcMessage {
                tags: p.tags,
                prefix: p.prefix,
                command: p.command,
                args: p.args,
                data: p.data,
                raw: input,
            }),
        }
    }

    /// The positions of the parts of this message, all of which lie within the raw string.
    pub fn parts(&self) -> (r: Parts)
        ensures
            r == self.spec_parts(),
            r.valid_in(self.raw_bytes()),
            self.raw_bytes().len() <= u16::MAX,
    {
        proof {
            use_type_invariant(self);
        }
        Parts {
            tags: self.tags,
            prefix: self.prefix,
            command: self.command,
            args: self.args,
            data: self.data,
        }
    }

    /// Get the raw string
    pub fn get_raw(&self) -> (r: &str)
        ensures
            r@ == self.spec_raw(),
            r.spec_bytes() == self.raw_bytes(),
    {
        self.raw.as_str()
    }

    /// The substring at `index`.
    pub fn slice(&self, index: MaybeOwnedIndex) -> (r: &str)
        requires
            index.valid_in(self.raw_bytes()),
        ensures
            r.spec_bytes() == index.bytes_of(self.raw_bytes()),
    {
        self.raw.slice(index)
    }

    fn slice_opt(&self, index: Option<MaybeOwnedIndex>) -> (r: Option<&str>)
        requires
            index matches Some(i) ==> i.valid_in(self.raw_bytes()),
        ensures
            str_at(r, index, self.raw_bytes()),
    {
        match index {
            Some(i) => Some(self.raw.slice(i)),
            None => None,
        }
    }

    /// Whether this message has the command `cmd`.
    pub open spec fn has_command(self, cmd: &str) -> bool {
        self.command_bytes() == cmd.spec_bytes()
    }

    /// The fields of the tags of this message (none when it has no tags).
    pub open spec fn spec_tag_fields(self) -> Seq<(MaybeOwnedIndex, MaybeOwnedIndex)> {
        match self.spec_parts().tags {
            Some(t) => tag_fields(self.raw_bytes(), t.start as int, t.end as int),
            None => Seq::empty(),
        }
    }

    /// The positions of the keys and values of the tags.
    pub fn parse_tags(&self) -> (r: TagIndices)
        ensures
            r.spec_fields() == self.spec_tag_fields(),
            fields_valid_in(r.spec_fields(), self.raw_bytes()),
    {
        proof {
            use_type_invariant(self);
        }
        match self.tags {
            Some(t) => TagIndices::build(self.raw.as_str().as_bytes(), t.start as usize, t.end as usize),
            None => TagIndices::empty(),
        }
    }

    /// Whether this message has the command `cmd`.
    pub fn is_command(&self, cmd: &str) -> (r: bool)
        ensures
            r == self.has_command(cmd),
    {
        str_eq(self.get_command(), cmd)
    }

    /// Get the raw tags
    pub fn get_tags(&self) -> (r: Option<&str>)
        ensures
            str_at(r, self.spec_parts().tags, self.raw_bytes()),
    {
        proof {
            use_type_invariant(self);
        }
        self.slice_opt(self.tags)
    }

    /// Get the raw prefix
    pub fn get_prefix(&self) -> (r: Option<&str>)
        ensures
            match self.spec_parts().prefix {
                Some(p) => r matches Some(s) && s.spec_bytes() == p.spec_index().bytes_of(
                    self.raw_bytes(),
                ),
                None => r is None,
            },
    {
        proof {
            use_type_invariant(self);
        }
        match self.prefix {
            Some(p) => Some(self.raw.slice(p.as_index())),
            None => None,
        }
    }

    /// The sender of this message, if it has one.
    pub fn get_prefix_info(&self) -> (r: Option<Prefix<'_>>)
        ensures
            match self.spec_parts().prefix {
                Some(p) => r matches Some(x) && x.spec_prefix_index() == p && x.spec_data()
                    == self.raw_bytes(),
                None => r is None,
            },
    {
        proof {
            use_type_invariant(self);
        }
        match self.prefix {
            Some(p) => Some(Prefix::new(&self.raw, p)),
            None => None,
        }
    }

    /// Get the raw command
    pub fn get_command(&self) -> (r: &str)
        ensures
            r.spec_bytes() == self.command_bytes(),
    {
        proof {
            use_type_invariant(self);
        }
        self.raw.slice(self.command)
    }

    /// Get the raw args
    pub fn get_args(&self) -> (r: Option<&str>)
        ensures
            str_at(r, self.spec_parts().args, self.raw_bytes()),
    {
        proof {
            use_type_invariant(self);
        }
        self.slice_opt(self.args)
    }

    /// Get the raw data
    pub fn get_data(&self) -> (r: Option<&str>)
        ensures
            str_at(r, self.spec_parts().data, self.raw_bytes()),
    {
        proof {
            use_type_invariant(self);
        }
        self.slice_opt(self.data)
    }

    /// Consumes this type returning the raw `MaybeOwned<'a>`
    pub fn into_inner(self) -> (r: MaybeOwned<'a>)
        ensures
            r == self.spec_raw_value(),
            r@ == self.spec_raw(),
            r.bytes() == self.raw_bytes(),
    {
        self.raw
    }

    /// An owned copy of this message, with the same text and parts.
    pub fn into_owned(self) -> (r: IrcMessage<'static>)
        ensures
            r.spec_raw() == self.spec_raw(),
            r.raw_bytes() == self.raw_bytes(),
            r.spec_parts() == self.spec_parts(),
    {
        proof {
            use_type_invariant(&self);
        }
        IrcMessage {
            tags: self.tags,
            prefix: self.prefix,
            command: self.command,
            args: self.args,
            data: self.data,
            raw: self.raw.into_owned(),
        }
    }

    /// An owned copy of this message, leaving this one as it is.
    pub fn to_owned_message(&self) -> (r: IrcMessage<'static>)
        ensures
            r.spec_raw() == self.spec_raw(),
            r.raw_bytes() == self.raw_bytes(),
            r.spec_parts() == self.spec_parts(),
    {
        proof {
            use_type_invariant(self);
        }
        IrcMessage {
            tags: self.tags,
            prefix: self.prefix,
            command: self.command,
            args: self.args,
            data: self.data,
            raw: MaybeOwned::Owned(self.raw.as_str().to_owned()),
        }
    }

    /// Get the raw 'nth' argument
    ///
    /// The arguments are split on runs of ASCII whitespace; empty runs are skipped.
    pub fn nth_arg(&self, nth: usize) -> (r: Option<&str>)
        ensures
            str_at(r, self.spec_nth_arg(nth as nat), self.raw_bytes()),
            r is Some ==> (self.spec_nth_arg(nth as nat) matches Some(i) && i.valid_in(
                self.raw_bytes(),
            )),
    {
        proof {
            use_type_invariant(self);
        }
        match self.args {
            None => None,
            Some(a) => {
                let b = self.raw.as_str().as_bytes();
                match nth_token_exec(b, a.start as usize, a.end as usize, nth) {
                    None => None,
                    Some((s, e)) => Some(self.raw.slice(MaybeOwnedIndex::raw(s, e))),
                }
            },
        }
    }

    /// Get the index of the 'nth' argument
    ///
    /// Every ASCII whitespace byte in the arguments separates two of them.
    pub fn nth_arg_index(&self, nth: usize) -> (r: Option<MaybeOwnedIndex>)
        ensures
            r == self.spec_nth_arg_index(nth as nat),
            r matches Some(i) ==> i.valid_in(self.raw_bytes()),
    {
        proof {
            use_type_invariant(self);
        }
        match self.args {
            None => None,
            Some(a) => {
                let b = self.raw.as_str().as_bytes();
                match nth_field_exec(b, a.start as usize, a.end as usize, nth) {
                    None => None,
                    Some((s, e)) => Some(MaybeOwnedIndex::raw(s, e)),
                }
            },
        }
    }

    /// Checks that this message has the command `cmd`.
    pub fn expect_command(&self, cmd: &str) -> (r: Result<(), MessageError>)
        ensures
            r is Ok <==> self.command_bytes() == cmd.spec_bytes(),
            r matches Err(e) ==> e matches MessageError::InvalidCommand { expected, got }
                && expected@ == cmd@ && encode_utf8(got@) == self.command_bytes(),
    {
        let got = self.get_command();
        if str_eq(got, cmd) {
            Ok(())
        } else {
            Err(MessageError::InvalidCommand { expected: cmd.to_owned(), got: got.to_owned() })
        }
    }

    /// The index of the nickname of the sender.
    pub fn expect_nick(&self) -> (r: Result<MaybeOwnedIndex, MessageError>)
        ensures
            match self.spec_parts().prefix {
                Some(PrefixIndex::User { nick }) => r matches Ok(i) && i == nick && i.valid_in(
                    self.raw_bytes(),
                ),
                _ => r matches Err(MessageError::ExpectedNick),
            },
    {
        proof {
            use_type_invariant(self);
        }
        match self.prefix {
            Some(PrefixIndex::User { nick }) => Ok(nick),
            _ => Err(MessageError::ExpectedNick),
        }
    }

    /// The `nth` argument, which must be present.
    pub fn expect_arg(&self, nth: usize) -> (r: Result<&str, MessageError>)
        ensures
            match self.spec_nth_arg(nth as nat) {
                Some(i) => r matches Ok(s) && s.spec_bytes() == i.bytes_of(self.raw_bytes()),
                None => r matches Err(MessageError::ExpectedArg { pos }) && pos == nth,
            },
    {
        match self.nth_arg(nth) {
            Some(s) => Ok(s),
            None => Err(MessageError::ExpectedArg { pos: nth }),
        }
    }

    /// The index of the `nth` argument, which must be present.
    pub fn expect_arg_index(&self, nth: usize) -> (r: Result<MaybeOwnedIndex, MessageError>)
        ensures
            match self.spec_nth_arg_index(nth as nat) {
                Some(i) => r matches Ok(j) && j == i && j.valid_in(self.raw_bytes()),
                None => r matches Err(MessageError::ExpectedArg { pos }) && pos == nth,
            },
    {
        match self.nth_arg_index(nth) {
            Some(i) => Ok(i),
            None => Err(MessageError::ExpectedArg { pos: nth }),
        }
    }

    /// The trailing data, which must be present.
    pub fn expect_data(&self) -> (r: Result<&str, MessageError>)
        ensures
            match self.spec_parts().data {
                Some(i) => r matches Ok(s) && s.spec_bytes() == i.bytes_of(self.raw_bytes()),
                None => r matches Err(MessageError::ExpectedData),
            },
    {
        match self.get_data() {
            Some(s) => Ok(s),
            None => Err(MessageError::ExpectedData),
        }
    }

    /// The index of the trailing data, which must be present.
    pub fn expect_data_index(&self) -> (r: Result<MaybeOwnedIndex, MessageError>)
        ensures
            match self.spec_parts().data {
                Some(i) => r matches Ok(j) && j == i && j.valid_in(self.raw_bytes()),
                None => r matches Err(MessageError::ExpectedData),
            },
    {
        proof {
            use_type_invariant(self);
        }
        match self.data {
            Some(i) => Ok(i),
            None => Err(MessageError::ExpectedData),
        }
    }
}

} // verus!

verus! {

/// On arguments that are words separated by single whitespace bytes (none at either end), the
/// index of the `n`-th argument is where the `n`-th argument is: both are absent once `n`
/// passes the last word, and the index lies within the arguments.
pub proof fn nth_arg_index_agrees_with_nth_arg(m: IrcMessage, n: nat)
    requires
        m.spec_parts().args matches Some(a) && singly_spaced(m.raw_bytes(), a.start as int, a.end as int),
    ensures
        m.spec_nth_arg_index(n) == m.spec_nth_arg(n),
        m.spec_parts().args matches Some(a) && (m.spec_nth_arg_index(n) matches Some(i) ==> a.start
            <= i.start <= i.end <= a.end),
{
    let a = m.spec_parts().args->Some_0;
    lemma_tokens_are_fields(m.raw_bytes(), a.start as int, a.end as int, n);
}

} // verus!

verus! {

/// Parsing, then taking the raw string back, gives back the very input: the same text, and
/// borrowed exactly when it was borrowed.
pub proof fn parse_then_into_inner_gives_back_input<'a>(input: MaybeOwned<'a>, m: IrcMessage<'a>, r: MaybeOwned<'a>)
    requires
        parse_result(input, Ok(m)),
        r == m.spec_raw_value(),
    ensures
        r == input,
{
}

} // verus!
