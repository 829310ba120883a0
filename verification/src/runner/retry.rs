//! Common decisions on whether to reconnect after the main loop ends.
use vstd::prelude::*;
use crate::runner::status::Status;
use crate::runner::error::Error;

verus! {

/// Some common retry strategies.
///
/// Each takes how the main loop ended and returns one of:
/// * `Ok(true)` to cause it to reconnect.
/// * `Ok(false)` will gracefully exit with `Ok(Status::Eof)`
/// * `Err(err)` will return that error
#[derive(Copy, Clone, Debug, Default)]
pub struct RetryStrategy;

impl RetryStrategy {
    /// Reconnect immediately unless the `Status` was `Cancelled`
    pub fn immediately(result: Result<Status, Error>) -> (r: Result<bool, Error>)
        ensures
            r == Ok::<bool, Error>(!(result matches Ok(Status::Cancelled))),
    {
        Ok(!matches!(result, Ok(Status::Cancelled)))
    }

    /// Retries if `Status` was a **TimedOut**, otherwise return the `Err` or `false` (to stop the connection loop).
    pub fn on_timeout(result: Result<Status, Error>) -> (r: Result<bool, Error>)
        ensures
            match result {
                Ok(s) => r == Ok::<bool, Error>(s == Status::TimedOut),
                Err(e) => r matches Err(e2) && e2 == e,
            },
    {
        match result {
            Ok(s) => Ok(matches!(s, Status::TimedOut)),
            Err(e) => Err(e),
        }
    }

    /// Retries if the `Result` was an error
    pub fn on_error(result: Result<Status, Error>) -> (r: Result<bool, Error>)
        ensures
            r == Ok::<bool, Error>(result is Err),
    {
        Ok(result.is_err())
    }
}

} // verus!
