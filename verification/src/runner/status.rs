//! How the main loop ended.
use vstd::prelude::*;

verus! {

/// The status of the runner after it finished its main loop.
#[derive(Copy, Clone, Debug, PartialEq, Eq, Structural, Hash)]
pub enum Status {
    /// The loop was cancelled
    Cancelled,
    /// The loop timed out
    TimedOut,
    /// The loop ran to completion
    Eof,
}

} // verus!
