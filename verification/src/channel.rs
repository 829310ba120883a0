//! Bounded channels between the parts of a client.
use vstd::prelude::*;

verus! {

#[verifier::external_type_specification]
#[verifier::external_body]
#[verifier::reject_recursive_types(T)]
pub struct ExAsyncSender<T>(async_channel::Sender<T>);

#[verifier::external_type_specification]
#[verifier::external_body]
#[verifier::reject_recursive_types(T)]
pub struct ExAsyncReceiver<T>(async_channel::Receiver<T>);

/// Why an item could not be sent right away; it is handed back.
pub enum TrySendError<T> {
    /// The receiving end is gone
    Closed(T),
    /// The channel is full
    Full(T),
}

impl<T> TrySendError<T> {
    /// The item that was not sent.
    pub open spec fn item(self) -> T {
        match self {
            TrySendError::Closed(t) => t,
            TrySendError::Full(t) => t,
        }
    }
}

/// The sending end of a channel.
#[verifier::reject_recursive_types(T)]
pub struct ChannelSender<T> {
    inner: async_channel::Sender<T>,
    capacity: Ghost<nat>,
}

/// The receiving end of a channel.
#[verifier::reject_recursive_types(T)]
pub struct ChannelReceiver<T> {
    inner: async_channel::Receiver<T>,
    capacity: Ghost<nat>,
}

/// `async_channel::bounded`: a channel that holds at most `cap` items (the crate panics when
/// `cap` is 0).
#[verifier::external_body]
fn channel_bounded<T>(cap: usize) -> (async_channel::Sender<T>, async_channel::Receiver<T>)
    requires
        cap > 0,
{
    async_channel::bounded(cap)
}

/// `async_channel::Sender::try_send`: sends without waiting; when the channel is full or
/// closed, the crate hands the item back inside the error.
#[verifier::external_body]
fn channel_try_send<T>(tx: &async_channel::Sender<T>, item: T) -> (r: Result<(), TrySendError<T>>)
    ensures
        r matches Err(e) ==> e.item() == item,
{
    match tx.try_send(item) {
        Ok(()) => Ok(()),
        Err(async_channel::TrySendError::Full(t)) => Err(TrySendError::Full(t)),
        Err(async_channel::TrySendError::Closed(t)) => Err(TrySendError::Closed(t)),
    }
}

/// `async_channel::Receiver::try_recv`: an item, if one is waiting; nothing is promised of
/// which, since other ends may take or add items at any time.
#[verifier::external_body]
fn channel_try_recv<T>(rx: &async_channel::Receiver<T>) -> Option<T> {
    rx.try_recv().ok()
}

/// `Clone` of `async_channel::Sender`: another handle to the same channel.
#[verifier::external_body]
fn channel_sender_clone<T>(tx: &async_channel::Sender<T>) -> async_channel::Sender<T> {
    tx.clone()
}

/// `Clone` of `async_channel::Receiver`: another handle to the same channel.
#[verifier::external_body]
fn channel_receiver_clone<T>(rx: &async_channel::Receiver<T>) -> async_channel::Receiver<T> {
    rx.clone()
}

/// A channel that holds at most `cap` items.
pub fn bounded<T>(cap: usize) -> (r: (ChannelSender<T>, ChannelReceiver<T>))
    requires
        cap > 0,
    ensures
        r.0.spec_capacity() == cap,
        r.1.spec_capacity() == cap,
{
    let (tx, rx) = channel_bounded(cap);
    (ChannelSender { inner: tx, capacity: Ghost(cap as nat) }, ChannelReceiver { inner: rx, capacity: Ghost(cap as nat) })
}

impl<T> ChannelSender<T> {
    /// The most items the channel holds.
    pub closed spec fn spec_capacity(self) -> nat {
        self.capacity@
    }

    /// The channel's own sending end.
    pub closed spec fn spec_inner(self) -> async_channel::Sender<T> {
        self.inner
    }

    /// Sends `item` without waiting; when that cannot be done, the error holds `item`.
    pub fn try_send(&self, item: T) -> (r: Result<(), TrySendError<T>>)
        ensures
            r matches Err(e) ==> e.item() == item,
    {
        channel_try_send(&self.inner, item)
    }

    /// The channel's own sending end, for sending that waits.
    pub fn as_async(&self) -> (r: &async_channel::Sender<T>)
        ensures
            *r == self.spec_inner(),
    {
        &self.inner
    }
}

impl<T> Clone for ChannelSender<T> {
    fn clone(&self) -> (r: Self)
        ensures
            r.spec_capacity() == self.spec_capacity(),
    {
        ChannelSender { inner: channel_sender_clone(&self.inner), capacity: Ghost(self.capacity@) }
    }
}

impl<T> ChannelReceiver<T> {
    /// The most items the channel holds.
    pub closed spec fn spec_capacity(self) -> nat {
        self.capacity@
    }

    /// The channel's own receiving end.
    pub closed spec fn spec_inner(self) -> async_channel::Receiver<T> {
        self.inner
    }

    /// An item, if one is waiting.
    pub fn try_recv(&self) -> Option<T> {
        channel_try_recv(&self.inner)
    }

    /// The channel's own receiving end, for receiving that waits.
    pub fn as_async(&self) -> (r: &async_channel::Receiver<T>)
        ensures
            *r == self.spec_inner(),
    {
        &self.inner
    }
}

impl<T> Clone for ChannelReceiver<T> {
    fn clone(&self) -> (r: Self)
        ensures
            r.spec_capacity() == self.spec_capacity(),
    {
        ChannelReceiver { inner: channel_receiver_clone(&self.inner), capacity: Ghost(self.capacity@) }
    }
}

} // verus!
