//! The handles through which activity reaches the idle detection loop.
use vstd::prelude::*;
use std::sync::mpsc::{SyncSender, Receiver, RecvTimeoutError};
use std::time::Duration;
use crate::irc::message::IrcMessage;

verus! {

#[verifier::external_type_specification]
#[verifier::external_body]
#[verifier::reject_recursive_types(T)]
pub struct ExSyncSender<T>(SyncSender<T>);

#[verifier::external_type_specification]
#[verifier::external_body]
#[verifier::reject_recursive_types(T)]
pub struct ExReceiver<T>(Receiver<T>);

/// The kind of activity
pub enum Activity {
    /// A message was read
    ///
    /// When you read a messsage, you should give the logic a copy of it, via
    /// this type
    Message(IrcMessage<'static>),
    /// Delay the logic until the next deadline
    ///
    /// When you write a message, you should send this.
    Tick,
    /// A signal that the loop should exit
    Quit,
}

/// A handle for notifying the detection logic that it should delay
///
/// If you drop this, the other end will hang up
pub struct ActivitySender(SyncSender<Activity>, Ghost<nat>);

/// A handle that you give to the timeout detection logic
pub struct ActivityReceiver(Receiver<Activity>, Ghost<nat>);

/// What waiting for activity gave.
pub enum Received {
    /// This activity arrived
    Activity(Activity),
    /// Nothing arrived in time
    TimedOut,
    /// The sender went away
    Disconnected,
}

/// `std::sync::mpsc::sync_channel`: a channel that holds up to `bound` values.
#[verifier::external_body]
fn sync_channel_of(bound: usize) -> (r: (SyncSender<Activity>, Receiver<Activity>)) {
    std::sync::mpsc::sync_channel(bound)
}

/// `SyncSender::send`: sends `a`, waiting while the channel is full; whether it was delivered
/// depends on the receiver still being there.
#[verifier::external_body]
fn send_activity(tx: &SyncSender<Activity>, a: Activity) -> (r: bool) {
    tx.send(a).is_ok()
}

/// `Receiver::recv_timeout`: waits up to `millis` milliseconds for a value.
///
/// What comes back depends on the sender and on time; nothing is promised of it.
#[verifier::external_body]
fn recv_activity(rx: &Receiver<Activity>, millis: u64) -> (r: Received) {
    match rx.recv_timeout(Duration::from_millis(millis)) {
        Ok(a) => Received::Activity(a),
        Err(RecvTimeoutError::Timeout) => Received::TimedOut,
        Err(RecvTimeoutError::Disconnected) => Received::Disconnected,
    }
}

impl Activity {
    /// Create a pair of activity handles
    pub fn pair() -> (r: (ActivitySender, ActivityReceiver))
        ensures
            r.0.spec_capacity() == 64,
            r.1.spec_capacity() == 64,
    {
        let (tx, rx) = sync_channel_of(64);
        (ActivitySender(tx, Ghost(64)), ActivityReceiver(rx, Ghost(64)))
    }
}

impl ActivitySender {
    /// The most activities the channel holds.
    pub closed spec fn spec_capacity(self) -> nat {
        self.1@
    }

    /// Send this activitiy
    pub fn message(&self, activity: Activity) {
        let _ = send_activity(&self.0, activity);
    }
}

impl ActivityReceiver {
    /// The most activities the channel holds.
    pub closed spec fn spec_capacity(self) -> nat {
        self.1@
    }

    /// Waits up to `millis` milliseconds for the next activity.
    pub fn recv_within(&self, millis: u64) -> Received {
        recv_activity(&self.0, millis)
    }
}

} // verus!
