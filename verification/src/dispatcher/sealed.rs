//! The types that can be subscribed to.
use vstd::prelude::*;

verus! {

/// Implemented only by the message types of this crate.
pub trait Sealed {}

} // verus!
