//! The handshake over an `AsyncRead + AsyncWrite` connection.
use vstd::prelude::*;

verus! {

/// The initial connection handshake over an `AsyncRead + AsyncWrite` connection.
#[derive(Debug)]
pub struct Handshake<IO> {
    inner: IO,
}

impl<IO> Handshake<IO> {
    /// The connection.
    pub closed spec fn spec_inner(self) -> IO {
        self.inner
    }

    /// Create a new Handshake from the provided `AsyncRead + AsyncWrite`
    pub fn new(io: IO) -> (r: Self)
        ensures
            r.spec_inner() == io,
    {
        Handshake { inner: io }
    }

    /// The connection, to register on.
    pub fn inner_mut(&mut self) -> (r: &mut IO)
        ensures
            *r == old(self).spec_inner(),
            final(self).spec_inner() == *final(r),
    {
        &mut self.inner
    }

    /// Consume the Handshake returning the inner IO
    pub fn into_inner(self) -> (r: IO)
        ensures
            r == self.spec_inner(),
    {
        self.inner
    }
}

} // verus!
