//! The decisions around the main loop: when waiting for a message ends, how a finished loop
//! reports, and whether to connect again.
use vstd::prelude::*;
use crate::channel::{bounded, ChannelReceiver, ChannelSender};
use crate::dispatcher::DispatchError;
use crate::irc::message::IrcMessage;
use crate::irc::FromIrcMessage;
use crate::runner::error::Error;
use crate::runner::runner_error::RunnerError;
use crate::runner::status::Status;
use crate::runner::step::StepResult;
use crate::runner::wait_for::CapsStatus;

verus! {

/// Configuration for what to do when retrying a connection
pub struct ResetConfig {
    reset_handlers: ChannelSender<()>,
}

impl ResetConfig {
    /// User Handlers (`EventStream`s) should be reset.
    ///
    /// When the connection is attempted again, it will clear any user `EventStreams` causing
    /// them to eventually produce None.
    ///
    /// This gives you a channel to 'wait' on so you can resubscribe.
    pub fn should_reset_handlers() -> (r: (Self, ChannelReceiver<()>))
        ensures
            r.0.spec_reset_handlers().spec_capacity() == 1,
            r.1.spec_capacity() == 1,
    {
        let (tx, rx) = bounded(1);
        (ResetConfig { reset_handlers: tx }, rx)
    }

    /// The channel on which a reset is announced.
    pub closed spec fn spec_reset_handlers(self) -> ChannelSender<()> {
        self.reset_handlers
    }

    /// The channel on which a reset is announced.
    pub fn reset_handlers(&self) -> (r: &ChannelSender<()>)
        ensures
            *r == self.spec_reset_handlers(),
    {
        &self.reset_handlers
    }
}

impl Clone for ResetConfig {
    fn clone(&self) -> Self {
        ResetConfig { reset_handlers: self.reset_handlers.clone() }
    }
}

/// How waiting for a message named `name` goes on, once the queue was checked: `None` while
/// it has not come, else what the wait returns.
pub fn ready_outcome<T: FromIrcMessage<'static>>(
    status: CapsStatus<IrcMessage<'static>>,
    name: &'static str,
) -> (r: Option<Result<T, RunnerError>>)
    ensures
        match status {
            CapsStatus::RequiredCap(c) => r matches Some(Err(RunnerError::RequiredCaps(c2, n)))
                && c2 == c && n == name,
            CapsStatus::Seen(msg) => {
                &&& r matches Some(x)
                &&& x is Ok <==> T::accepts(msg)
                &&& x matches Ok(t) ==> t.raw_text() == msg.spec_raw()
                &&& x matches Err(e) ==> e matches RunnerError::Dispatch(DispatchError::InvalidMessage(_))
            },
            CapsStatus::NotSeen => r is None,
        },
{
    match status {
        CapsStatus::RequiredCap(c) => Some(Err(RunnerError::RequiredCaps(c, name))),
        CapsStatus::Seen(msg) => match T::from_irc(msg) {
            Ok(t) => Some(Ok(t)),
            Err(e) => Some(Err(RunnerError::Dispatch(DispatchError::InvalidMessage(e)))),
        },
        CapsStatus::NotSeen => None,
    }
}

/// What a step of the main loop means while waiting for the message named `name`: the wait
/// fails when the loop would stop, since the message can no longer come.
pub fn stopped_waiting(step: StepResult, name: &'static str) -> (r: Option<RunnerError>)
    ensures
        match step {
            StepResult::Continue => r is None,
            StepResult::Break(_) => r matches Some(RunnerError::WaitForMessage(n)) && n == name,
        },
{
    match step {
        StepResult::Continue => None,
        StepResult::Break(_) => Some(RunnerError::WaitForMessage(name)),
    }
}

/// The status a finished main loop reports: `Cancelled` when quitting was asked for, else the
/// status the loop stopped with.
pub fn completion_status(stopped_with: Status, quit_requested: bool) -> (r: Status)
    ensures
        r == (if quit_requested {
            Status::Cancelled
        } else {
            stopped_with
        }),
{
    if quit_requested {
        Status::Cancelled
    } else {
        stopped_with
    }
}

/// What the reconnect loop does once the retry strategy answered.
pub enum RetryStep {
    /// Connect again; when `reset` holds, reset the handlers and announce it first
    Reconnect {
        /// Whether to reset the handlers
        reset: bool,
    },
    /// Stop, returning this
    Finish(Result<(), Error>),
}

/// The reconnect loop's decision on the retry strategy's `answer`: reconnect on `Ok(true)`,
/// resetting the handlers when a reset configuration is kept; stop otherwise, with the
/// strategy's error if it gave one.
pub fn after_retry(answer: Result<bool, Error>, has_reset_config: bool) -> (r: RetryStep)
    ensures
        match answer {
            Ok(true) => r matches RetryStep::Reconnect { reset } && reset == has_reset_config,
            Ok(false) => r matches RetryStep::Finish(Ok(())),
            Err(e) => r matches RetryStep::Finish(Err(e2)) && e2 == e,
        },
{
    match answer {
        Ok(true) => RetryStep::Reconnect { reset: has_reset_config },
        Ok(false) => RetryStep::Finish(Ok(())),
        Err(e) => RetryStep::Finish(Err(e)),
    }
}

} // verus!
