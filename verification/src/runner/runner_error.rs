//! Errors of the runner's own loop.
use vstd::prelude::*;
use crate::dispatcher::DispatchError;
use crate::decoder::error::DecodeError;
use crate::runner::wait_for::Capability;

verus! {

/// An error produced by the runner.
#[derive(Debug)]
pub enum RunnerError {
    /// A message could not be dispatched
    Dispatch(DispatchError),
    /// A message could not be decoded
    Decode(DecodeError),
    /// An I/O error occurred
    Io(std::io::Error),
    /// This capability is needed for the named message, and an anonymous connection cannot have it
    RequiredCaps(Capability, &'static str),
    /// The connection has no name yet: the server never said who we are
    InvalidConnection,
    /// The connection closed while waiting for the named message
    WaitForMessage(&'static str),
}

impl From<DispatchError> for RunnerError {
    fn from(err: DispatchError) -> (r: Self) {
        RunnerError::Dispatch(err)
    }
}

impl vstd::std_specs::convert::FromSpecImpl<DispatchError> for RunnerError {
    open spec fn obeys_from_spec() -> bool {
        true
    }

    open spec fn from_spec(err: DispatchError) -> Self {
        RunnerError::Dispatch(err)
    }
}

impl From<DecodeError> for RunnerError {
    fn from(err: DecodeError) -> (r: Self) {
        RunnerError::Decode(err)
    }
}

impl vstd::std_specs::convert::FromSpecImpl<DecodeError> for RunnerError {
    open spec fn obeys_from_spec() -> bool {
        true
    }

    open spec fn from_spec(err: DecodeError) -> Self {
        RunnerError::Decode(err)
    }
}

impl From<std::io::Error> for RunnerError {
    fn from(err: std::io::Error) -> (r: Self) {
        RunnerError::Io(err)
    }
}

impl vstd::std_specs::convert::FromSpecImpl<std::io::Error> for RunnerError {
    open spec fn obeys_from_spec() -> bool {
        true
    }

    open spec fn from_spec(err: std::io::Error) -> Self {
        RunnerError::Io(err)
    }
}

} // verus!
