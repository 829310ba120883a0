//! A string that is either borrowed or owned, and byte ranges into it.
use vstd::prelude::*;
use vstd::utf8::*;
use vstd::string::StringSliceAdditionalSpecFns;
use crate::text::{starts_char, slice_str};

verus! {

broadcast use vstd::string::group_string_axioms, vstd::utf8::encode_utf8_valid_utf8;

/// A string that is either borrowed from the input or owned.
#[derive(Debug)]
pub enum MaybeOwned<'a> {
    /// A borrowed string
    Borrowed(&'a str),
    /// An owned string
    Owned(String),
}

impl<'a> View for MaybeOwned<'a> {
    type V = Seq<char>;

    open spec fn view(&self) -> Seq<char> {
        match self {
            MaybeOwned::Borrowed(s) => s@,
            MaybeOwned::Owned(s) => s@,
        }
    }
}

impl<'a> MaybeOwned<'a> {
    /// The UTF-8 bytes of this string.
    pub open spec fn bytes(&self) -> Seq<u8> {
        encode_utf8(self@)
    }

    /// Borrow the string.
    pub fn as_str(&self) -> (r: &str)
        ensures
            r@ == self@,
            r.spec_bytes() == self.bytes(),
    {
        match self {
            MaybeOwned::Borrowed(s) => s,
            MaybeOwned::Owned(s) => s.as_str(),
        }
    }

    /// The substring covered by `index`.
    pub fn slice(&self, index: MaybeOwnedIndex) -> (r: &str)
        requires
            index.valid_in(self.bytes()),
        ensures
            r.spec_bytes() == index.bytes_of(self.bytes()),
    {
        slice_str(self.as_str(), index.start as usize, index.end as usize)
    }

    /// Consumes this, returning an owned copy of the same string.
    pub fn into_owned(self) -> (r: MaybeOwned<'static>)
        ensures
            r@ == self@,
            r is Owned,
    {
        match self {
            MaybeOwned::Borrowed(s) => MaybeOwned::Owned(s.to_owned()),
            MaybeOwned::Owned(s) => MaybeOwned::Owned(s),
        }
    }
}

impl<'a> Clone for MaybeOwned<'a> {
    fn clone(&self) -> (r: Self)
        ensures
            r@ == self@,
    {
        match self {
            MaybeOwned::Borrowed(s) => MaybeOwned::Borrowed(s),
            MaybeOwned::Owned(s) => MaybeOwned::Owned(s.clone()),
        }
    }
}

impl<'a> From<String> for MaybeOwned<'a> {
    fn from(s: String) -> (r: Self) {
        MaybeOwned::Owned(s)
    }
}

impl<'a> vstd::std_specs::convert::FromSpecImpl<String> for MaybeOwned<'a> {
    open spec fn obeys_from_spec() -> bool {
        true
    }

    open spec fn from_spec(s: String) -> Self {
        MaybeOwned::Owned(s)
    }
}

impl<'a> From<&'a str> for MaybeOwned<'a> {
    fn from(s: &'a str) -> (r: Self) {
        MaybeOwned::Borrowed(s)
    }
}

impl<'a> vstd::std_specs::convert::FromSpecImpl<&'a str> for MaybeOwned<'a> {
    open spec fn obeys_from_spec() -> bool {
        true
    }

    open spec fn from_spec(s: &'a str) -> Self {
        MaybeOwned::Borrowed(s)
    }
}

/// An index into a [`MaybeOwned`]: the byte range `start..end`.
#[derive(Copy, Clone, Default, Debug, PartialEq, Eq, Structural, PartialOrd, Ord, Hash)]
pub struct MaybeOwnedIndex {
    /// The start index
    pub start: u16,
    /// The end index
    pub end: u16,
}

/// The index `start..end`, with both ends taken modulo the width of the index type.
pub open spec fn spec_index(start: int, end: int) -> MaybeOwnedIndex {
    MaybeOwnedIndex { start: start as u16, end: end as u16 }
}

impl MaybeOwnedIndex {
    /// This index lies within `b`, is ordered, and both ends start a character.
    pub open spec fn valid_in(self, b: Seq<u8>) -> bool {
        &&& self.start <= self.end <= b.len()
        &&& starts_char(b, self.start as int)
        &&& starts_char(b, self.end as int)
    }

    /// The bytes of `b` covered by this index.
    pub open spec fn bytes_of(self, b: Seq<u8>) -> Seq<u8> {
        b.subrange(self.start as int, self.end as int)
    }

    /// Create a new index from this start and end point
    pub fn raw(start: usize, end: usize) -> (r: Self)
        ensures
            r == spec_index(start as int, end as int),
    {
        Self { start: start as u16, end: end as u16 }
    }

    /// Create a new index with the same starting/ending point.
    ///
    /// This has the end point to start -- so you can resize/bump/etc the end.
    pub fn new(pos: usize) -> (r: Self)
        ensures
            r == spec_index(pos as int, pos as int),
    {
        Self { start: pos as u16, end: pos as u16 }
    }

    /// Shift the whole start/end pairs by `pos` amount
    pub fn offset_by(self, pos: usize) -> (r: Self)
        requires
            self.start + (pos as u16) <= u16::MAX,
            self.end + (pos as u16) <= u16::MAX,
        ensures
            r.start == self.start + (pos as u16),
            r.end == self.end + (pos as u16),
    {
        let mut this = self;
        this.start = this.start + pos as u16;
        this.end = this.end + pos as u16;
        this
    }

    /// Grow the end by `len` amount
    pub fn resize(self, len: usize) -> (r: Self)
        requires
            self.start + (len as u16) <= u16::MAX,
        ensures
            r.start == self.start,
            r.end == self.start + (len as u16),
    {
        let mut this = self;
        this.end = this.start + len as u16;
        this
    }

    /// Shrink the end by `len` amount
    pub fn truncate(self, len: usize) -> (r: Self)
        requires
            self.end >= (len as u16),
        ensures
            r.start == self.start,
            r.end == self.end - (len as u16),
    {
        let mut this = self;
        this.end = this.end - len as u16;
        this
    }

    /// Replace this index with a new one start/ending at `pos`, returning the old index
    pub fn replace(&mut self, pos: usize) -> (r: Self)
        ensures
            r == *old(self),
            *final(self) == spec_index(pos as int, pos as int),
    {
        let old = *self;
        *self = Self::new(pos);
        old
    }

    /// Checks whether this index is empty (e.g. start points to the end)
    pub fn is_empty(&self) -> (r: bool)
        ensures
            r == (self.start == self.end),
    {
        self.start == self.end
    }

    /// Bump the 'end' by 1 unit
    pub fn bump_tail(&mut self)
        requires
            old(self).end < u16::MAX,
        ensures
            final(self).start == old(self).start,
            final(self).end == old(self).end + 1,
    {
        self.end = self.end + 1;
    }

    /// Get this type as a range
    pub fn as_range(self) -> (r: core::ops::Range<usize>)
        ensures
            r.start == self.start,
            r.end == self.end,
    {
        (self.start as usize)..(self.end as usize)
    }
}

} // verus!

verus! {

/// Converts a 'borrowed' type into an owned type. e.g. `'a` to `'static`
pub trait IntoOwned<'a> {
    /// The output type
    type Output;

    /// Consumes self, returning an owned version
    fn into_owned(self) -> Self::Output;
}

impl<'a> IntoOwned<'a> for MaybeOwned<'a> {
    type Output = MaybeOwned<'static>;

    fn into_owned(self) -> (r: MaybeOwned<'static>)
        ensures
            r@ == self@,
            r is Owned,
    {
        MaybeOwned::into_owned(self)
    }
}

impl IntoOwned<'static> for MaybeOwnedIndex {
    type Output = MaybeOwnedIndex;

    fn into_owned(self) -> (r: MaybeOwnedIndex)
        ensures
            r == self,
    {
        self
    }
}

} // verus!
