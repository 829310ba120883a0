//! The handshake over a `Sink + Stream` connection.
use vstd::prelude::*;

verus! {

/// The initial connection handshake over a `Sink + Stream` connection whose sink takes `M`.
#[derive(Debug)]
pub struct Handshake<IO, M> {
    inner: IO,
    _marker: std::marker::PhantomData<M>,
}

impl<IO, M> Handshake<IO, M> {
    /// The connection.
    pub closed spec fn spec_inner(self) -> IO {
        self.inner
    }

    /// Create a new Handshake from the provided `Sink + Stream`
    pub fn new(io: IO) -> (r: Self)
        ensures
            r.spec_inner() == io,
    {
        Handshake { inner: io, _marker: std::marker::PhantomData }
    }

    /// The connection, to register on.
    pub fn inner_mut(&mut self) -> (r: &mut IO)
        ensures
            *r == old(self).spec_inner(),
            final(self).spec_inner() == *final(r),
    {
        &mut self.inner
    }

    /// Consume the Handshake returning the inner IO
    pub fn into_inner(self) -> (r: IO)
        ensures
            r == self.spec_inner(),
    {
        self.inner
    }
}

} // verus!
