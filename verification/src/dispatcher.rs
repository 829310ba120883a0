//! Dispatching messages to their subscribers, and its errors.
mod sealed;

use vstd::prelude::*;
use vstd::string::StringExecFns;
use vstd::multiset::Multiset;
use crate::irc::error::MessageError;
use crate::irc::message::IrcMessage;
use crate::irc::FromIrcMessage;
use crate::messages::commands::{Commands, CommandKind, kind_of, commands_result, command_kind};
use crate::messages::{
    Cap, ClearChat, ClearMsg, GlobalUserState, HostTarget, IrcReady, Join, Notice, Part, Ping, Pong,
    Privmsg, Ready, Reconnect, RoomState, UserNotice, UserState, Whisper,
};

verus! {

/// An error produced by the Dispatcher
#[derive(Debug)]
pub enum DispatchError {
    /// The message type was wrong -- this will only happen on user-defined events.
    InvalidMessage(MessageError),
    /// A custom error message -- this will only happen on user-defined events.
    Custom(String),
}

impl DispatchError {
    /// The text that describes this error.
    pub fn to_string(&self) -> (r: String)
        ensures
            match self {
                DispatchError::InvalidMessage(e) => r@ == "invalid message: "@ + e.spec_text(),
                DispatchError::Custom(m) => r@ == "unknown error: "@ + m@,
            },
    {
        match self {
            DispatchError::InvalidMessage(e) => {
                let mut s = String::from_str("invalid message: ");
                s.append(e.to_string().as_str());
                s
            },
            DispatchError::Custom(m) => {
                let mut s = String::from_str("unknown error: ");
                s.append(m.as_str());
                s
            },
        }
    }

    /// Create a new custom error message type
    pub fn custom(message: String) -> (r: Self)
        ensures
            r matches DispatchError::Custom(m) && m@ == message@,
    {
        DispatchError::Custom(message)
    }
}

impl From<MessageError> for DispatchError {
    fn from(msg: MessageError) -> (r: Self) {
        DispatchError::InvalidMessage(msg)
    }
}

impl vstd::std_specs::convert::FromSpecImpl<MessageError> for DispatchError {
    open spec fn obeys_from_spec() -> bool {
        true
    }

    open spec fn from_spec(msg: MessageError) -> Self {
        DispatchError::InvalidMessage(msg)
    }
}

} // verus!

verus! {

/// The subscribers a message can go to: those of all messages ([`Commands`]), those of raw
/// messages ([`IrcMessage`]), and those of one kind of message.
pub enum Topic {
    /// Subscribers of all messages
    All,
    /// Subscribers of raw messages
    Raw,
    /// Subscribers of the messages of this kind
    Kind(CommandKind),
}

/// Which of a dispatcher's two subscriber maps.
pub enum Target {
    /// The subscriptions that `reset` keeps
    System,
    /// The subscriptions that `reset` ends
    User,
}

/// A message type that can be subscribed to, with the subscribers it is sent to.
pub trait HasTopic: sealed::Sealed {
    /// The subscribers of this type.
    spec fn topic() -> Topic;
}

impl<'a> sealed::Sealed for Commands<'a> {}

impl<'a> HasTopic for Commands<'a> {
    open spec fn topic() -> Topic {
        Topic::All
    }
}

impl<'a> sealed::Sealed for IrcMessage<'a> {}

impl<'a> HasTopic for IrcMessage<'a> {
    open spec fn topic() -> Topic {
        Topic::Raw
    }
}

impl<'a> sealed::Sealed for IrcReady<'a> {}

impl<'a> HasTopic for IrcReady<'a> {
    open spec fn topic() -> Topic {
        Topic::Kind(CommandKind::IrcReady)
    }
}

impl<'a> sealed::Sealed for Ready<'a> {}

impl<'a> HasTopic for Ready<'a> {
    open spec fn topic() -> Topic {
        Topic::Kind(CommandKind::Ready)
    }
}

impl<'a> sealed::Sealed for Cap<'a> {}

impl<'a> HasTopic for Cap<'a> {
    open spec fn topic() -> Topic {
        Topic::Kind(CommandKind::Cap)
    }
}

impl<'a> sealed::Sealed for ClearChat<'a> {}

impl<'a> HasTopic for ClearChat<'a> {
    open spec fn topic() -> Topic {
        Topic::Kind(CommandKind::ClearChat)
    }
}

impl<'a> sealed::Sealed for ClearMsg<'a> {}

impl<'a> HasTopic for ClearMsg<'a> {
    open spec fn topic() -> Topic {
        Topic::Kind(CommandKind::ClearMsg)
    }
}

impl<'a> sealed::Sealed for GlobalUserState<'a> {}

impl<'a> HasTopic for GlobalUserState<'a> {
    open spec fn topic() -> Topic {
        Topic::Kind(CommandKind::GlobalUserState)
    }
}

impl<'a> sealed::Sealed for HostTarget<'a> {}

impl<'a> HasTopic for HostTarget<'a> {
    open spec fn topic() -> Topic {
        Topic::Kind(CommandKind::HostTarget)
    }
}

impl<'a> sealed::Sealed for Join<'a> {}

impl<'a> HasTopic for Join<'a> {
    open spec fn topic() -> Topic {
        Topic::Kind(CommandKind::Join)
    }
}

impl<'a> sealed::Sealed for Notice<'a> {}

impl<'a> HasTopic for Notice<'a> {
    open spec fn topic() -> Topic {
        Topic::Kind(CommandKind::Notice)
    }
}

impl<'a> sealed::Sealed for Part<'a> {}

impl<'a> HasTopic for Part<'a> {
    open spec fn topic() -> Topic {
        Topic::Kind(CommandKind::Part)
    }
}

impl<'a> sealed::Sealed for Ping<'a> {}

impl<'a> HasTopic for Ping<'a> {
    open spec fn topic() -> Topic {
        Topic::Kind(CommandKind::Ping)
    }
}

impl<'a> sealed::Sealed for Pong<'a> {}

impl<'a> HasTopic for Pong<'a> {
    open spec fn topic() -> Topic {
        Topic::Kind(CommandKind::Pong)
    }
}

impl<'a> sealed::Sealed for Privmsg<'a> {}

impl<'a> HasTopic for Privmsg<'a> {
    open spec fn topic() -> Topic {
        Topic::Kind(CommandKind::Privmsg)
    }
}

impl<'a> sealed::Sealed for Reconnect<'a> {}

impl<'a> HasTopic for Reconnect<'a> {
    open spec fn topic() -> Topic {
        Topic::Kind(CommandKind::Reconnect)
    }
}

impl<'a> sealed::Sealed for RoomState<'a> {}

impl<'a> HasTopic for RoomState<'a> {
    open spec fn topic() -> Topic {
        Topic::Kind(CommandKind::RoomState)
    }
}

impl<'a> sealed::Sealed for UserNotice<'a> {}

impl<'a> HasTopic for UserNotice<'a> {
    open spec fn topic() -> Topic {
        Topic::Kind(CommandKind::UserNotice)
    }
}

impl<'a> sealed::Sealed for UserState<'a> {}

impl<'a> HasTopic for UserState<'a> {
    open spec fn topic() -> Topic {
        Topic::Kind(CommandKind::UserState)
    }
}

impl<'a> sealed::Sealed for Whisper<'a> {}

impl<'a> HasTopic for Whisper<'a> {
    open spec fn topic() -> Topic {
        Topic::Kind(CommandKind::Whisper)
    }
}

/// The subscriptions registered in an `EventMap`, each by the topic of its type.
pub uninterp spec fn subscribers(m: simple_event_map::EventMap) -> Multiset<Topic>;

#[verifier::external_type_specification]
#[verifier::external_body]
pub struct ExEventMap(simple_event_map::EventMap);

#[verifier::external_type_specification]
#[verifier::external_body]
#[verifier::reject_recursive_types(T)]
pub struct ExEventIter<T>(simple_event_map::EventIter<T>);

#[verifier::external_type_specification]
#[verifier::external_body]
#[verifier::reject_recursive_types(T)]
pub struct ExEventStream<T>(simple_event_map::EventStream<T>);

/// `EventMap::new`: a map with no subscriptions.
#[verifier::external_body]
fn event_map_new() -> (r: simple_event_map::EventMap)
    ensures
        subscribers(r) == Multiset::<Topic>::empty(),
{
    simple_event_map::EventMap::new()
}

/// `EventMap::is_empty::<T>`: whether no subscription of `T` is registered.
#[verifier::external_body]
fn event_map_is_empty<T: HasTopic + 'static>(m: &simple_event_map::EventMap) -> (r: bool)
    ensures
        r == (subscribers(*m).count(T::topic()) == 0),
{
    m.is_empty::<T>()
}

/// `EventMap::send::<T>`: sends a clone of `msg` down each subscription of `T`, and drops the
/// subscriptions whose receiver is gone (which ones depends on the receivers). It says whether
/// any subscription of `T` was registered; those of other types are left as they were.
#[verifier::external_body]
fn event_map_send<T: HasTopic + Clone + 'static>(m: &mut simple_event_map::EventMap, msg: T) -> (r: bool)
    ensures
        r == (subscribers(*old(m)).count(T::topic()) > 0),
        subscribers(*final(m)).count(T::topic()) <= subscribers(*old(m)).count(T::topic()),
        forall|k: Topic| k != T::topic() ==> subscribers(*final(m)).count(k) == subscribers(*old(m)).count(k),
{
    m.send(msg)
}

/// `EventMap::register_iter::<T>`: registers one more subscription of `T`.
#[verifier::external_body]
fn event_map_register<T: HasTopic + Clone + 'static>(m: &mut simple_event_map::EventMap) -> (r: simple_event_map::EventIter<T>)
    ensures
        subscribers(*final(m)) == subscribers(*old(m)).insert(T::topic()),
{
    m.register_iter()
}

/// `EventMap::register_stream::<T>`: registers one more subscription of `T`, as a stream.
#[verifier::external_body]
fn event_map_register_stream<T: HasTopic + Clone + 'static>(m: &mut simple_event_map::EventMap) -> (r: simple_event_map::EventStream<T>)
    ensures
        subscribers(*final(m)) == subscribers(*old(m)).insert(T::topic()),
{
    m.register_stream()
}

/// `EventMap::reset`: drops every subscription, ending their receivers.
#[verifier::external_body]
fn event_map_reset(m: &mut simple_event_map::EventMap)
    ensures
        subscribers(*final(m)) == Multiset::<Topic>::empty(),
{
    m.reset()
}

/// `message` read as a `T` for its subscribers, given whether the system map (`want_system`)
/// and the user map (`want_map`) have any: `None` when neither has, so nothing is converted.
pub fn converted_for<T: FromIrcMessage<'static>>(message: IrcMessage<'static>, want_system: bool, want_map: bool) -> (r: Result<Option<T>, DispatchError>)
    ensures
        !want_system && !want_map ==> r matches Ok(None),
        want_system || want_map ==> {
            &&& r is Ok <==> T::accepts(message)
            &&& r matches Ok(x) ==> x matches Some(m) && m.raw_text() == message.spec_raw()
            &&& (r matches Err(e) ==> e matches DispatchError::InvalidMessage(_))
        },
{
    if !want_system && !want_map {
        return Ok(None);
    }
    match T::from_irc(message) {
        Ok(m) => Ok(Some(m)),
        Err(e) => Err(DispatchError::InvalidMessage(e)),
    }
}

/// A delivery: to which map, to the subscribers of which topic, and the text of the message.
pub type Delivery = (Target, Topic, Seq<char>);

/// The deliveries of a message with the text `text` to the subscribers of `k`: to the system
/// map when it has any, then to the user map when it has any.
pub open spec fn sends(k: Topic, text: Seq<char>, system: Multiset<Topic>, user: Multiset<Topic>) -> Seq<Delivery> {
    (if system.count(k) > 0 {
        seq![(Target::System, k, text)]
    } else {
        Seq::<Delivery>::empty()
    }) + (if user.count(k) > 0 {
        seq![(Target::User, k, text)]
    } else {
        Seq::<Delivery>::empty()
    })
}

/// Whether either map has subscribers of `k`.
pub open spec fn listened(k: Topic, system: Multiset<Topic>, user: Multiset<Topic>) -> bool {
    system.count(k) > 0 || user.count(k) > 0
}

/// Subscriptions only end, and only those of `k`.
pub open spec fn only_drops(old: Multiset<Topic>, new: Multiset<Topic>, k: Topic) -> bool {
    &&& new.count(k) <= old.count(k)
    &&& forall|j: Topic| j != k ==> new.count(j) == old.count(j)
}

/// Subscriptions only end.
pub open spec fn drops(old: Multiset<Topic>, new: Multiset<Topic>) -> bool {
    forall|j: Topic| new.count(j) <= old.count(j)
}

/// The topic of the message type that `msg`'s command names: raw when it names none.
pub open spec fn own_topic(msg: IrcMessage) -> Topic {
    match command_kind(msg) {
        CommandKind::Raw => Topic::Raw,
        k => Topic::Kind(k),
    }
}

/// A message dispatcher: each message goes to the subscribers of all messages, of raw
/// messages, and of its own type.
pub struct SyncDispatcher {
    map: simple_event_map::EventMap,
    system: simple_event_map::EventMap,
    log: Ghost<Seq<Delivery>>,
}

/// What resetting does: the user subscriptions end, the system ones stay.
pub open spec fn sync_was_reset(old: SyncDispatcher, new: SyncDispatcher) -> bool {
    &&& new.spec_user() == Multiset::<Topic>::empty()
    &&& new.spec_system() == old.spec_system()
    &&& new.spec_log() == old.spec_log()
}

/// The topics a message goes to: all messages, raw messages, and its own kind when its
/// command is a known one.
pub open spec fn sync_topic_of(k: Topic, message: IrcMessage) -> bool {
    ||| k == Topic::All
    ||| k == Topic::Raw
    ||| (command_kind(message) != CommandKind::Raw && k == Topic::Kind(command_kind(message)))
}

/// What subscribing to `k` in the user map does.
pub open spec fn sync_subscribed(old: SyncDispatcher, new: SyncDispatcher, k: Topic) -> bool {
    &&& new.spec_user() == old.spec_user().insert(k)
    &&& new.spec_system() == old.spec_system()
    &&& new.spec_log() == old.spec_log()
}

/// What dispatching `message` does: it goes to the subscribers of all messages, of raw
/// messages, and (for a known command) of its own kind, in that order. A message that its
/// own type cannot be read from fails, once someone listens for that type.
pub open spec fn sync_dispatched(old: SyncDispatcher, new: SyncDispatcher, message: IrcMessage, r: Result<(), DispatchError>) -> bool {
    let (s, u, t) = (old.spec_system(), old.spec_user(), message.spec_raw());
    let kind = command_kind(message);
    let own = if kind == CommandKind::Raw {
        Seq::<Delivery>::empty()
    } else {
        sends(Topic::Kind(kind), t, s, u)
    };
    &&& commands_result(Ok(()), message) ==> r is Ok && new.spec_log() == old.spec_log() + sends(Topic::All, t, s, u)
        + sends(Topic::Raw, t, s, u) + own
    &&& (!commands_result(Ok(()), message) ==> {
        &&& r is Err <==> listened(Topic::All, s, u) || listened(Topic::Kind(kind), s, u)
        &&& r is Ok ==> new.spec_log() == old.spec_log() + sends(Topic::Raw, t, s, u)
        &&& r is Err ==> new.spec_log() == old.spec_log() + (if listened(Topic::All, s, u) {
            Seq::<Delivery>::empty()
        } else {
            sends(Topic::Raw, t, s, u)
        })
    })
    &&& (r matches Err(e) ==> e matches DispatchError::InvalidMessage(_))
    &&& drops(old.spec_system(), new.spec_system())
    &&& drops(old.spec_user(), new.spec_user())
}

impl SyncDispatcher {
    /// The subscriptions that `reset` keeps.
    pub closed spec fn spec_system(self) -> Multiset<Topic> {
        subscribers(self.system)
    }

    /// The subscriptions that `reset` ends.
    pub closed spec fn spec_user(self) -> Multiset<Topic> {
        subscribers(self.map)
    }

    /// The deliveries made so far, in order.
    pub closed spec fn spec_log(self) -> Seq<Delivery> {
        self.log@
    }

    /// Create a new message dispatcher
    pub fn new() -> (r: SyncDispatcher)
        ensures
            r.spec_system() == Multiset::<Topic>::empty(),
            r.spec_user() == Multiset::<Topic>::empty(),
            r.spec_log() == Seq::<Delivery>::empty(),
    {
        SyncDispatcher { map: event_map_new(), system: event_map_new(), log: Ghost(Seq::empty()) }
    }

    /// Subscribe to the provided message type, giving you an iterator over any future messages.
    pub fn subscribe<T: HasTopic + Clone + 'static>(&mut self) -> (r: simple_event_map::EventIter<T>)
        ensures
            sync_subscribed(*old(self), *final(self), T::topic()),
    {
        event_map_register(&mut self.map)
    }

    /// Subscribe to a message that cannot be cleared. These should be 'system' events, e.g. 'PING'
    pub fn subscribe_system<T: HasTopic + Clone + 'static>(&mut self) -> (r: simple_event_map::EventIter<T>)
        ensures
            final(self).spec_system() == old(self).spec_system().insert(T::topic()),
            final(self).spec_user() == old(self).spec_user(),
            final(self).spec_log() == old(self).spec_log(),
    {
        event_map_register(&mut self.system)
    }

    /// Reset the dispatcher, this will cause all iterators previously produced via
    /// subscription (but not the system ones) to end.
    pub fn reset(&mut self)
        ensures
            sync_was_reset(*old(self), *final(self)),
    {
        event_map_reset(&mut self.map)
    }

    /// Sends `message`, as a `T`, to the subscribers of `T`; it is not converted when there
    /// are none, and fails when it does not read as a `T`.
    fn dispatch_static<T: FromIrcMessage<'static> + HasTopic + Clone + 'static>(&mut self, message: IrcMessage<'static>) -> (r: Result<(), DispatchError>)
        ensures
            ({
                let (s, u, k) = (old(self).spec_system(), old(self).spec_user(), T::topic());
                &&& r is Err <==> listened(k, s, u) && !T::accepts(message)
                &&& (r matches Err(e) ==> e matches DispatchError::InvalidMessage(_))
                &&& r is Ok ==> final(self).spec_log() == old(self).spec_log() + sends(k, message.spec_raw(), s, u)
                &&& r is Err ==> final(self).spec_log() == old(self).spec_log()
                &&& only_drops(s, final(self).spec_system(), k)
                &&& only_drops(u, final(self).spec_user(), k)
            }),
    {
        let ghost t = message.spec_raw();
        let want_system = !event_map_is_empty::<T>(&self.system);
        let want_map = !event_map_is_empty::<T>(&self.map);
        let msg = match converted_for::<T>(message, want_system, want_map) {
            Ok(Some(m)) => m,
            Ok(None) => {
                assert(sends(T::topic(), t, old(self).spec_system(), old(self).spec_user()) =~= Seq::<Delivery>::empty());
                return Ok(());
            },
            Err(e) => return Err(e),
        };
        if want_system && want_map {
            let copy = msg.clone();
            let _ = event_map_send(&mut self.system, copy);
            proof {
                self.log@ = self.log@.push((Target::System, T::topic(), t));
            }
            let _ = event_map_send(&mut self.map, msg);
            proof {
                self.log@ = self.log@.push((Target::User, T::topic(), t));
            }
        } else if want_system {
            let _ = event_map_send(&mut self.system, msg);
            proof {
                self.log@ = self.log@.push((Target::System, T::topic(), t));
            }
        } else {
            let _ = event_map_send(&mut self.map, msg);
            proof {
                self.log@ = self.log@.push((Target::User, T::topic(), t));
            }
        }
        assert(self.log@ =~= old(self).spec_log() + sends(T::topic(), t, old(self).spec_system(), old(self).spec_user()));
        Ok(())
    }

    /// Dispatch this `IrcMessage`: to the subscribers of all messages, of raw messages, and of
    /// the message's own type.
    ///
    /// It fails only on a message that its own type cannot be read from (such as a `PING`
    /// without a token), and only when someone subscribed to it.
    pub fn dispatch(&mut self, message: IrcMessage<'_>) -> (r: Result<(), DispatchError>)
        ensures
            sync_dispatched(*old(self), *final(self), message, r),
    {
        let owned = message.into_owned();
        match self.dispatch_static::<Commands<'static>>(owned.clone()) {
            Err(e) => return Err(e),
            Ok(()) => {},
        }
        match self.dispatch_static::<IrcMessage<'static>>(owned.clone()) {
            Err(e) => return Err(e),
            Ok(()) => {},
        }
        match kind_of(&owned) {
            CommandKind::Raw => Ok(()),
            CommandKind::IrcReady => self.dispatch_static::<IrcReady<'static>>(owned),
            CommandKind::Ready => self.dispatch_static::<Ready<'static>>(owned),
            CommandKind::Cap => self.dispatch_static::<Cap<'static>>(owned),
            CommandKind::ClearChat => self.dispatch_static::<ClearChat<'static>>(owned),
            CommandKind::ClearMsg => self.dispatch_static::<ClearMsg<'static>>(owned),
            CommandKind::GlobalUserState => self.dispatch_static::<GlobalUserState<'static>>(owned),
            CommandKind::HostTarget => self.dispatch_static::<HostTarget<'static>>(owned),
            CommandKind::Join => self.dispatch_static::<Join<'static>>(owned),
            CommandKind::Notice => self.dispatch_static::<Notice<'static>>(owned),
            CommandKind::Part => self.dispatch_static::<Part<'static>>(owned),
            CommandKind::Ping => self.dispatch_static::<Ping<'static>>(owned),
            CommandKind::Pong => self.dispatch_static::<Pong<'static>>(owned),
            CommandKind::Privmsg => self.dispatch_static::<Privmsg<'static>>(owned),
            CommandKind::Reconnect => self.dispatch_static::<Reconnect<'static>>(owned),
            CommandKind::RoomState => self.dispatch_static::<RoomState<'static>>(owned),
            CommandKind::UserNotice => self.dispatch_static::<UserNotice<'static>>(owned),
            CommandKind::UserState => self.dispatch_static::<UserState<'static>>(owned),
            CommandKind::Whisper => self.dispatch_static::<Whisper<'static>>(owned),
        }
    }
}

/// A message dispatcher whose subscriptions are streams: every message goes to the
/// subscribers of all messages ([`Commands`]); a known message also goes to the subscribers of
/// its own type, and any other message to the subscribers of raw messages.
pub struct AsyncDispatcher {
    map: simple_event_map::EventMap,
    system: simple_event_map::EventMap,
    log: Ghost<Seq<Delivery>>,
}

/// What subscribing to `k` in the user map does.
pub open spec fn async_subscribed(old: AsyncDispatcher, new: AsyncDispatcher, k: Topic) -> bool {
    &&& new.spec_user() == old.spec_user().insert(k)
    &&& new.spec_system() == old.spec_system()
    &&& new.spec_log() == old.spec_log()
}

/// What resetting does: the user subscriptions end, the system ones stay.
pub open spec fn async_was_reset(old: AsyncDispatcher, new: AsyncDispatcher) -> bool {
    &&& new.spec_user() == Multiset::<Topic>::empty()
    &&& new.spec_system() == old.spec_system()
    &&& new.spec_log() == old.spec_log()
}

/// What dispatching `message` does: it goes to the subscribers of all messages, then to those
/// of its own topic; it fails, with nothing sent, exactly when it does not read as its command.
pub open spec fn async_dispatched(old: AsyncDispatcher, new: AsyncDispatcher, message: IrcMessage, r: Result<(), DispatchError>) -> bool {
    let (s, u, t) = (old.spec_system(), old.spec_user(), message.spec_raw());
    &&& r is Ok <==> commands_result(Ok(()), message)
    &&& r is Ok ==> new.spec_log() == old.spec_log() + sends(Topic::All, t, s, u) + sends(own_topic(message), t, s, u)
    &&& r is Err ==> new.spec_log() == old.spec_log()
    &&& (r matches Err(e) ==> e matches DispatchError::InvalidMessage(_))
    &&& drops(old.spec_system(), new.spec_system())
    &&& drops(old.spec_user(), new.spec_user())
}

impl AsyncDispatcher {
    /// The subscriptions that `reset` keeps.
    pub closed spec fn spec_system(self) -> Multiset<Topic> {
        subscribers(self.system)
    }

    /// The subscriptions that `reset` ends.
    pub closed spec fn spec_user(self) -> Multiset<Topic> {
        subscribers(self.map)
    }

    /// The deliveries made so far, in order.
    pub closed spec fn spec_log(self) -> Seq<Delivery> {
        self.log@
    }

    /// Create a new message dispatcher
    pub fn new() -> (r: AsyncDispatcher)
        ensures
            r.spec_system() == Multiset::<Topic>::empty(),
            r.spec_user() == Multiset::<Topic>::empty(),
            r.spec_log() == Seq::<Delivery>::empty(),
    {
        AsyncDispatcher { map: event_map_new(), system: event_map_new(), log: Ghost(Seq::empty()) }
    }

    /// Subscribe to the provided message type, giving you a stream of any future messages.
    pub fn subscribe<T: HasTopic + Clone + 'static>(&mut self) -> (r: simple_event_map::EventStream<T>)
        ensures
            async_subscribed(*old(self), *final(self), T::topic()),
    {
        event_map_register_stream(&mut self.map)
    }

    /// Subscribe to a message that cannot be cleared. These should be 'system' events, e.g. 'PING'
    pub fn subscribe_system<T: HasTopic + Clone + 'static>(&mut self) -> (r: simple_event_map::EventStream<T>)
        ensures
            final(self).spec_system() == old(self).spec_system().insert(T::topic()),
            final(self).spec_user() == old(self).spec_user(),
            final(self).spec_log() == old(self).spec_log(),
    {
        event_map_register_stream(&mut self.system)
    }

    /// Reset the dispatcher, this will cause all streams previously produced via subscription
    /// (but not the system ones) to end.
    pub fn reset(&mut self)
        ensures
            async_was_reset(*old(self), *final(self)),
    {
        event_map_reset(&mut self.map)
    }

    /// Converts `message` to a `T` and sends it to the subscribers of `T`.
    fn dispatch_static<T: FromIrcMessage<'static> + HasTopic + Clone + 'static>(&mut self, message: IrcMessage<'static>) -> (r: Result<(), DispatchError>)
        ensures
            ({
                let (s, u, k) = (old(self).spec_system(), old(self).spec_user(), T::topic());
                &&& r is Ok <==> T::accepts(message)
                &&& (r matches Err(e) ==> e matches DispatchError::InvalidMessage(_))
                &&& r is Ok ==> final(self).spec_log() == old(self).spec_log() + sends(k, message.spec_raw(), s, u)
                &&& r is Err ==> final(self).spec_log() == old(self).spec_log()
                &&& only_drops(s, final(self).spec_system(), k)
                &&& only_drops(u, final(self).spec_user(), k)
            }),
    {
        let ghost t = message.spec_raw();
        let msg = match T::from_irc(message) {
            Ok(m) => m,
            Err(e) => return Err(DispatchError::InvalidMessage(e)),
        };
        if !event_map_is_empty::<T>(&self.system) {
            let copy = msg.clone();
            let _ = event_map_send(&mut self.system, copy);
            proof {
                self.log@ = self.log@.push((Target::System, T::topic(), t));
            }
        }
        let ghost mid = self.log@;
        if event_map_send(&mut self.map, msg) {
            proof {
                self.log@ = self.log@.push((Target::User, T::topic(), t));
            }
        }
        assert(self.log@ =~= old(self).spec_log() + sends(T::topic(), t, old(self).spec_system(), old(self).spec_user()));
        Ok(())
    }

    /// Dispatch this `IrcMessage` as one of all messages, and converted to the type of its
    /// command; a message of no known command goes out as a raw message instead.
    ///
    /// It fails exactly on a message that its own type cannot be read from (such as a
    /// `PING` without a token).
    pub fn dispatch(&mut self, message: IrcMessage<'_>) -> (r: Result<(), DispatchError>)
        ensures
            async_dispatched(*old(self), *final(self), message, r),
    {
        let msg = message.into_owned();
        match self.dispatch_static::<Commands<'static>>(msg.clone()) {
            Err(e) => return Err(e),
            Ok(()) => {},
        }
        match kind_of(&msg) {
            CommandKind::Raw => self.dispatch_static::<IrcMessage<'static>>(msg),
            CommandKind::IrcReady => self.dispatch_static::<IrcReady<'static>>(msg),
            CommandKind::Ready => self.dispatch_static::<Ready<'static>>(msg),
            CommandKind::Cap => self.dispatch_static::<Cap<'static>>(msg),
            CommandKind::ClearChat => self.dispatch_static::<ClearChat<'static>>(msg),
            CommandKind::ClearMsg => self.dispatch_static::<ClearMsg<'static>>(msg),
            CommandKind::GlobalUserState => self.dispatch_static::<GlobalUserState<'static>>(msg),
            CommandKind::HostTarget => self.dispatch_static::<HostTarget<'static>>(msg),
            CommandKind::Join => self.dispatch_static::<Join<'static>>(msg),
            CommandKind::Notice => self.dispatch_static::<Notice<'static>>(msg),
            CommandKind::Part => self.dispatch_static::<Part<'static>>(msg),
            CommandKind::Ping => self.dispatch_static::<Ping<'static>>(msg),
            CommandKind::Pong => self.dispatch_static::<Pong<'static>>(msg),
            CommandKind::Privmsg => self.dispatch_static::<Privmsg<'static>>(msg),
            CommandKind::Reconnect => self.dispatch_static::<Reconnect<'static>>(msg),
            CommandKind::RoomState => self.dispatch_static::<RoomState<'static>>(msg),
            CommandKind::UserNotice => self.dispatch_static::<UserNotice<'static>>(msg),
            CommandKind::UserState => self.dispatch_static::<UserState<'static>>(msg),
            CommandKind::Whisper => self.dispatch_static::<Whisper<'static>>(msg),
        }
    }
}

} // verus!

verus! {

/// A subscriber receives every message dispatched after it subscribed that goes to its topic:
/// all messages, raw messages, or the message's own kind.
pub proof fn sync_subscriber_receives_messages(
    d0: SyncDispatcher,
    d1: SyncDispatcher,
    k: Topic,
    message: IrcMessage,
    d2: SyncDispatcher,
    r: Result<(), DispatchError>,
)
    requires
        sync_subscribed(d0, d1, k),
        sync_dispatched(d1, d2, message, r),
        commands_result(Ok(()), message),
        sync_topic_of(k, message),
    ensures
        r is Ok,
        d2.spec_log().contains((Target::User, k, message.spec_raw())),
{
    let (s, u, t) = (d1.spec_system(), d1.spec_user(), message.spec_raw());
    let kind = command_kind(message);
    let own = if kind == CommandKind::Raw {
        Seq::<Delivery>::empty()
    } else {
        sends(Topic::Kind(kind), t, s, u)
    };
    let a = sends(Topic::All, t, s, u);
    let b = sends(Topic::Raw, t, s, u);
    let log = d1.spec_log() + a + b + own;
    assert(d2.spec_log() == log);
    assert(u.count(k) > 0);
    let e = (Target::User, k, t);
    if k == Topic::All {
        assert(a.last() == e);
        assert(log[d1.spec_log().len() + a.len() - 1] == e);
    } else if k == Topic::Raw {
        assert(b.last() == e);
        assert(log[d1.spec_log().len() + a.len() + b.len() - 1] == e);
    } else {
        assert(own.last() == e);
        assert(log[d1.spec_log().len() + a.len() + b.len() + own.len() - 1] == e);
    }
}

/// After a reset, dispatching reaches only the system subscriptions, which the reset kept.
pub proof fn sync_reset_keeps_only_system_subscribers(
    d0: SyncDispatcher,
    d1: SyncDispatcher,
    message: IrcMessage,
    d2: SyncDispatcher,
    r: Result<(), DispatchError>,
)
    requires
        sync_was_reset(d0, d1),
        sync_dispatched(d1, d2, message, r),
    ensures
        d1.spec_system() == d0.spec_system(),
        d2.spec_log().len() >= d1.spec_log().len(),
        forall|i: int| d1.spec_log().len() <= i < d2.spec_log().len() ==> d2.spec_log()[i].0 == Target::System,
{
    let (s, u, t) = (d1.spec_system(), d1.spec_user(), message.spec_raw());
    assert forall|k: Topic| u.count(k) == 0 by {}
    assert forall|k: Topic| #[trigger] sends(k, t, s, u) == (if s.count(k) > 0 {
        seq![(Target::System, k, t)]
    } else {
        Seq::<Delivery>::empty()
    }) by {
        assert(sends(k, t, s, u) =~= (if s.count(k) > 0 {
            seq![(Target::System, k, t)]
        } else {
            Seq::<Delivery>::empty()
        }));
    }
}

/// A subscriber receives every message dispatched after it subscribed that reads as its
/// command, as one of all messages and as one of its own topic.
pub proof fn async_subscriber_receives_messages(
    d0: AsyncDispatcher,
    d1: AsyncDispatcher,
    k: Topic,
    message: IrcMessage,
    d2: AsyncDispatcher,
    r: Result<(), DispatchError>,
)
    requires
        async_subscribed(d0, d1, k),
        async_dispatched(d1, d2, message, r),
        commands_result(Ok(()), message),
        k == Topic::All || k == own_topic(message),
    ensures
        r is Ok,
        d2.spec_log().contains((Target::User, k, message.spec_raw())),
{
    let (s, u, t) = (d1.spec_system(), d1.spec_user(), message.spec_raw());
    let a = sends(Topic::All, t, s, u);
    let b = sends(own_topic(message), t, s, u);
    let log = d1.spec_log() + a + b;
    assert(d2.spec_log() == log);
    assert(u.count(k) > 0);
    let e = (Target::User, k, t);
    if k == Topic::All {
        assert(a.last() == e);
        assert(log[d1.spec_log().len() + a.len() - 1] == e);
    } else {
        assert(b.last() == e);
        assert(log[d1.spec_log().len() + a.len() + b.len() - 1] == e);
    }
}

/// After a reset, dispatching reaches only the system subscriptions, which the reset kept.
pub proof fn async_reset_keeps_only_system_subscribers(
    d0: AsyncDispatcher,
    d1: AsyncDispatcher,
    message: IrcMessage,
    d2: AsyncDispatcher,
    r: Result<(), DispatchError>,
)
    requires
        async_was_reset(d0, d1),
        async_dispatched(d1, d2, message, r),
    ensures
        d1.spec_system() == d0.spec_system(),
        d2.spec_log().len() >= d1.spec_log().len(),
        forall|i: int| d1.spec_log().len() <= i < d2.spec_log().len() ==> d2.spec_log()[i].0 == Target::System,
{
    let (s, u, t) = (d1.spec_system(), d1.spec_user(), message.spec_raw());
    assert forall|k: Topic| u.count(k) == 0 by {}
    assert forall|k: Topic| #[trigger] sends(k, t, s, u) == (if s.count(k) > 0 {
        seq![(Target::System, k, t)]
    } else {
        Seq::<Delivery>::empty()
    }) by {
        assert(sends(k, t, s, u) =~= (if s.count(k) > 0 {
            seq![(Target::System, k, t)]
        } else {
            Seq::<Delivery>::empty()
        }));
    }
}

} // verus!
