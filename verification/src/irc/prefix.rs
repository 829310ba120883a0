//! The sender of a message.
use vstd::prelude::*;
use vstd::string::StringSliceAdditionalSpecFns;
use crate::maybe_owned::{MaybeOwned, MaybeOwnedIndex};

verus! {

/// Where the prefix of a message sits in the raw message: a user's nickname or a
/// server's hostname.
#[derive(Debug, Copy, Clone, Ord, PartialOrd, Eq, PartialEq, Structural, Hash)]
pub enum PrefixIndex {
    /// A user prefix
    User {
        /// Index of the nickname
        nick: MaybeOwnedIndex,
    },
    /// A server prefix
    Server {
        /// Index of the hostname
        host: MaybeOwnedIndex,
    },
}

impl PrefixIndex {
    /// The index this prefix refers to: the nickname or the hostname.
    pub open spec fn spec_index(self) -> MaybeOwnedIndex {
        match self {
            PrefixIndex::User { nick } => nick,
            PrefixIndex::Server { host } => host,
        }
    }

    /// Was this message from the server?
    pub fn is_server(&self) -> (r: bool)
        ensures
            r == (*self is Server),
    {
        !self.is_nick()
    }

    /// Was this message from a user?
    pub fn is_nick(&self) -> (r: bool)
        ensures
            r == (*self is User),
    {
        matches!(self, PrefixIndex::User { .. })
    }

    /// Get the index of the nickname
    pub fn nick_index(self) -> (r: Option<MaybeOwnedIndex>)
        ensures
            r == (match self {
                PrefixIndex::User { nick } => Some(nick),
                PrefixIndex::Server { .. } => None,
            }),
    {
        match self {
            PrefixIndex::User { nick } => Some(nick),
            PrefixIndex::Server { .. } => None,
        }
    }

    /// Get the index of the hostname
    pub fn host_index(self) -> (r: Option<MaybeOwnedIndex>)
        ensures
            r == (match self {
                PrefixIndex::Server { host } => Some(host),
                PrefixIndex::User { .. } => None,
            }),
    {
        match self {
            PrefixIndex::Server { host } => Some(host),
            PrefixIndex::User { .. } => None,
        }
    }

    /// Consumes this returning the index
    pub fn as_index(self) -> (r: MaybeOwnedIndex)
        ensures
            r == self.spec_index(),
    {
        match self {
            PrefixIndex::User { nick } => nick,
            PrefixIndex::Server { host } => host,
        }
    }

    /// An index is already owned: this returns it unchanged.
    pub fn into_owned(self) -> (r: Self)
        ensures
            r == self,
    {
        self
    }
}

/// Prefix is the sender of a message
pub struct Prefix<'a> {
    pub(crate) data: &'a MaybeOwned<'a>,
    pub(crate) index: PrefixIndex,
}

impl<'a> Prefix<'a> {
    #[verifier::type_invariant]
    spec fn inv(self) -> bool {
        self.index.spec_index().valid_in(self.data.bytes())
    }

    /// The string this prefix points into.
    pub closed spec fn spec_data(self) -> Seq<u8> {
        self.data.bytes()
    }

    /// The position of this prefix in its string.
    pub closed spec fn spec_prefix_index(self) -> PrefixIndex {
        self.index
    }

    /// A prefix at `index` in `data`.
    pub fn new(data: &'a MaybeOwned<'a>, index: PrefixIndex) -> (r: Self)
        requires
            index.spec_index().valid_in(data.bytes()),
        ensures
            r.spec_data() == data.bytes(),
            r.spec_prefix_index() == index,
    {
        Prefix { data, index }
    }

    /// Was this message from the server?
    pub fn is_server(&self) -> (r: bool)
        ensures
            r == (self.spec_prefix_index() is Server),
    {
        !self.is_user()
    }

    /// Was this message from a user?
    pub fn is_user(&self) -> (r: bool)
        ensures
            r == (self.spec_prefix_index() is User),
    {
        matches!(self.index, PrefixIndex::User { .. })
    }

    /// Get the full, raw string
    pub fn get_raw_prefix(&self) -> (r: &'a str)
        ensures
            r.spec_bytes() == self.spec_prefix_index().spec_index().bytes_of(self.spec_data()),
    {
        proof {
            use_type_invariant(self);
        }
        self.data.slice(self.index.as_index())
    }

    /// Get the nickname of this prefix, if it was sent by a user
    pub fn get_nick(&self) -> (r: Option<&'a str>)
        ensures
            match self.spec_prefix_index() {
                PrefixIndex::User { nick } => r matches Some(s) && s.spec_bytes() == nick.bytes_of(
                    self.spec_data(),
                ),
                PrefixIndex::Server { .. } => r is None,
            },
    {
        proof {
            use_type_invariant(self);
        }
        match self.index {
            PrefixIndex::User { nick } => Some(self.data.slice(nick)),
            PrefixIndex::Server { .. } => None,
        }
    }
}

} // verus!
