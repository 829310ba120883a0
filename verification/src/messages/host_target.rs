//! A channel starts or stops hosting another channel.
use vstd::prelude::*;
use vstd::string::StringSliceAdditionalSpecFns;
use crate::irc::error::MessageError;
use crate::irc::message::IrcMessage;
use crate::irc::FromIrcMessage;
use crate::maybe_owned::{MaybeOwned, MaybeOwnedIndex, spec_index};
use crate::messages::shape::as_unit;
use crate::text::{find_ws, ws_len_at, find_ws_exec, ws_len, lemma_find_ws_range, lemma_ws_char, spec_parse_usize, parse_usize, bytes_eq};

verus! {

broadcast use vstd::string::group_string_axioms, vstd::utf8::encode_utf8_valid_utf8;

/// Event kind for determine when a Host event beings or end
#[derive(Debug, Copy, Clone, PartialEq, Eq)]
pub enum HostTargetKind<'a> {
    /// The host event started
    Start {
        /// Target channel that is being hosted
        target: &'a str,
    },
    /// The host event ended
    End,
}

/// When a channel starts to host another channel
#[derive(Debug)]
pub struct HostTarget<'a> {
    msg: IrcMessage<'a>,
    source: MaybeOwnedIndex,
    viewers: Option<usize>,
    target: Option<MaybeOwnedIndex>,
}

/// Where the first word of the data `d` of `b` ends: at its first whitespace character.
pub open spec fn first_word_end(b: Seq<u8>, d: MaybeOwnedIndex) -> int {
    find_ws(b, d.start as int, d.end as int)
}

/// The target named by the data `d`: its first word, unless that is `-`.
pub open spec fn host_target_of(b: Seq<u8>, d: MaybeOwnedIndex) -> Option<MaybeOwnedIndex> {
    let w = first_word_end(b, d);
    if b.subrange(d.start as int, w) == "-".spec_bytes() {
        None
    } else {
        Some(spec_index(d.start as int, w))
    }
}

/// The viewer count in the data `d`: everything after the first whitespace character, read as
/// a number, when there is such a character and the rest is a number.
pub open spec fn host_viewers_of(b: Seq<u8>, d: MaybeOwnedIndex) -> Option<usize> {
    let w = first_word_end(b, d);
    if w < d.end {
        spec_parse_usize(b.subrange(w + ws_len_at(b, w, d.end as int), d.end as int))
    } else {
        None
    }
}

/// `r` is the outcome of reading a `HOSTTARGET` message from `msg`: the command, then the
/// data, then the first argument (the source channel) must be present.
pub open spec fn host_target_result(r: Result<(), MessageError>, msg: IrcMessage) -> bool {
    if !msg.has_command(IrcMessage::HOST_TARGET) {
        r matches Err(MessageError::InvalidCommand { .. })
    } else if msg.spec_parts().data is None {
        r matches Err(MessageError::ExpectedData)
    } else if msg.spec_nth_arg_index(0) is None {
        r matches Err(MessageError::ExpectedArg { pos }) && pos == 0
    } else {
        r is Ok
    }
}

impl<'a> HostTarget<'a> {
    #[verifier::type_invariant]
    spec fn inv(self) -> bool {
        &&& self.source.valid_in(self.msg.raw_bytes())
        &&& self.target matches Some(t) ==> t.valid_in(self.msg.raw_bytes())
    }

    /// The message this was read from.
    pub closed spec fn spec_msg(self) -> IrcMessage<'a> {
        self.msg
    }

    /// The position of the source channel.
    pub closed spec fn spec_source(self) -> MaybeOwnedIndex {
        self.source
    }

    /// The viewer count.
    pub closed spec fn spec_viewers(self) -> Option<usize> {
        self.viewers
    }

    /// The position of the target channel, when hosting starts.
    pub closed spec fn spec_target(self) -> Option<MaybeOwnedIndex> {
        self.target
    }

    /// Get the raw message
    pub fn raw(&self) -> (r: &str)
        ensures
            r.spec_bytes() == self.spec_msg().raw_bytes(),
    {
        self.msg.get_raw()
    }

    /// Source channel (the one doing the hosting).
    pub fn source(&self) -> (r: &str)
        ensures
            r.spec_bytes() == self.spec_source().bytes_of(self.spec_msg().raw_bytes()),
    {
        proof {
            use_type_invariant(self);
        }
        self.msg.slice(self.source)
    }

    /// How many viewers are going along
    pub fn viewers(&self) -> (r: Option<usize>)
        ensures
            r == self.spec_viewers(),
    {
        self.viewers
    }

    /// What kind of event this was. e.g. `Start` or `End`
    pub fn host_target_kind(&self) -> (r: HostTargetKind<'_>)
        ensures
            match self.spec_target() {
                Some(t) => r matches HostTargetKind::Start { target } && target.spec_bytes()
                    == t.bytes_of(self.spec_msg().raw_bytes()),
                None => r matches HostTargetKind::End,
            },
    {
        proof {
            use_type_invariant(self);
        }
        match self.target {
            Some(index) => HostTargetKind::Start { target: self.msg.slice(index) },
            None => HostTargetKind::End,
        }
    }

    /// An owned copy of this message.
    pub fn into_owned(self) -> (r: HostTarget<'static>)
        ensures
            r.spec_msg().raw_bytes() == self.spec_msg().raw_bytes(),
            r.spec_msg().spec_parts() == self.spec_msg().spec_parts(),
            r.spec_source() == self.spec_source(),
            r.spec_viewers() == self.spec_viewers(),
            r.spec_target() == self.spec_target(),
    {
        proof {
            use_type_invariant(&self);
        }
        HostTarget {
            msg: self.msg.into_owned(),
            source: self.source,
            viewers: self.viewers,
            target: self.target,
        }
    }
}

impl<'a> FromIrcMessage<'a> for HostTarget<'a> {
    open spec fn raw_text(self) -> Seq<char> {
        self.spec_msg().spec_raw()
    }

    open spec fn accepts(msg: IrcMessage<'a>) -> bool {
        host_target_result(Ok(()), msg)
    }

    /// Reads `[- | <target>] <viewers>?` from the data and the source channel from the
    /// first argument.
    fn from_irc(msg: IrcMessage<'a>) -> (r: Result<Self, MessageError>)
        ensures
            host_target_result(as_unit(r), msg),
            r matches Ok(h) ==> {
                &&& h.spec_msg() == msg
                &&& msg.spec_parts().data matches Some(d)
                &&& h.spec_target() == host_target_of(msg.raw_bytes(), d)
                &&& h.spec_viewers() == host_viewers_of(msg.raw_bytes(), d)
                &&& msg.spec_nth_arg_index(0) == Some(h.spec_source())
            },
    {
        match msg.expect_command(IrcMessage::HOST_TARGET) {
            Err(e) => return Err(e),
            Ok(()) => {},
        }
        let d = match msg.expect_data_index() {
            Err(e) => return Err(e),
            Ok(i) => i,
        };
        let parts = msg.parts();
        let b = msg.get_raw().as_bytes();
        let ds = d.start as usize;
        let de = d.end as usize;
        proof {
            lemma_find_ws_range(b@, ds as int, de as int);
        }
        let w = find_ws_exec(b, ds, de);
        let first = msg.slice(MaybeOwnedIndex::raw(ds, w));
        let target = if bytes_eq(first.as_bytes(), "-".as_bytes()) {
            None
        } else {
            Some(MaybeOwnedIndex::raw(ds, w))
        };
        let viewers = if w < de {
            let n = ws_len(b, w, de);
            proof {
                lemma_ws_char(b@, w as int, de as int);
            }
            let rest = msg.slice(MaybeOwnedIndex::raw(w + n, de));
            parse_usize(rest.as_bytes())
        } else {
            None
        };
        let source = match msg.expect_arg_index(0) {
            Err(e) => return Err(e),
            Ok(i) => i,
        };
        Ok(HostTarget { msg, source, viewers, target })
    }

    fn into_inner(self) -> MaybeOwned<'a> {
        self.msg.into_inner()
    }
}


impl<'a> Clone for HostTarget<'a> {
    fn clone(&self) -> (r: Self)
        ensures
            r.spec_msg().raw_bytes() == self.spec_msg().raw_bytes(),
            r.spec_msg().spec_parts() == self.spec_msg().spec_parts(),
            r.spec_source() == self.spec_source(),
            r.spec_viewers() == self.spec_viewers(),
            r.spec_target() == self.spec_target(),
    {
        proof {
            use_type_invariant(self);
        }
        HostTarget { msg: self.msg.clone(), source: self.source, viewers: self.viewers, target: self.target }
    }
}

} // verus!
