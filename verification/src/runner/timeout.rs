//! Idle detection: the decisions of the loop that keeps a connection alive.
//!
//! The loop waits up to [`WINDOW_MILLIS`] for activity. When nothing happens in that
//! window it asks for a `PING` to be sent and waits for the `PONG`; when the server does
//! not answer within [`TIMEOUT_MILLIS`], the connection has timed out.
use vstd::prelude::*;
use vstd::utf8::encode_utf8;
use vstd::string::StringSliceAdditionalSpecFns;
use crate::irc::message::IrcMessage;
use crate::irc::FromIrcMessage;
use crate::messages::commands::{Commands, CommandKind, command_kind, commands_result};
use crate::runner::activity::{Activity, Received};

verus! {

broadcast use vstd::string::group_string_axioms;

/// The idle window in seconds: the time without activity before a heartbeat is sent.
pub const WINDOW_SECS: u64 = 45;

/// The timeout in seconds: the time the server has to answer a heartbeat.
pub const TIMEOUT_SECS: u64 = 10;

/// The idle window in milliseconds.
pub const WINDOW_MILLIS: u64 = 45000;

/// The timeout in milliseconds.
pub const TIMEOUT_MILLIS: u64 = 10000;

/// Where the idle detection is, with the time (in milliseconds) it got there.
#[derive(Copy, Clone, Debug, PartialEq, Eq, Structural)]
pub enum TimeoutState {
    /// A heartbeat was sent at this time, and its answer has not come yet
    WaitingForPong(u64),
    /// There was activity at this time
    Activity(u64),
    /// Nothing has happened yet
    Start,
}

/// What the idle detection loop observed.
#[derive(Debug, PartialEq, Eq)]
pub enum IdleEvent {
    /// The sender of activity went away
    Disconnected,
    /// A quit was asked for
    Quit,
    /// Activity, such as a write
    Tick,
    /// The idle window passed without any activity
    Idle,
    /// The server sent a `PING` with this token
    Ping(String),
    /// The server sent a `PONG`
    Pong,
    /// Some other message was read
    Other,
}

/// What the idle detection loop should do next.
#[derive(Debug, PartialEq, Eq)]
pub enum IdleAction {
    /// Wait for the next event
    Continue,
    /// Send this token back (answering a `PING`), then wait for the next event
    SendToken(String),
    /// Send a heartbeat with a fresh timestamp as its token, then wait for the next event
    SendTimestamp,
    /// Stop without an error
    Stop,
    /// Stop: the connection timed out
    TimedOut,
}

/// The kind of an event, without its payload.
#[derive(Copy, Clone, Debug, PartialEq, Eq, Structural)]
pub enum IdleEventKind {
    /// See [`IdleEvent::Disconnected`]
    Disconnected,
    /// See [`IdleEvent::Quit`]
    Quit,
    /// See [`IdleEvent::Tick`]
    Tick,
    /// See [`IdleEvent::Idle`]
    Idle,
    /// See [`IdleEvent::Ping`]
    Ping,
    /// See [`IdleEvent::Pong`]
    Pong,
    /// See [`IdleEvent::Other`]
    Other,
}

/// The kind of an action, without its payload.
#[derive(Copy, Clone, Debug, PartialEq, Eq, Structural)]
pub enum IdleActionKind {
    /// See [`IdleAction::Continue`]
    Continue,
    /// See [`IdleAction::SendToken`]
    SendToken,
    /// See [`IdleAction::SendTimestamp`]
    SendTimestamp,
    /// See [`IdleAction::Stop`]
    Stop,
    /// See [`IdleAction::TimedOut`]
    TimedOut,
}

impl IdleEvent {
    /// The kind of this event.
    pub open spec fn kind(self) -> IdleEventKind {
        match self {
            IdleEvent::Disconnected => IdleEventKind::Disconnected,
            IdleEvent::Quit => IdleEventKind::Quit,
            IdleEvent::Tick => IdleEventKind::Tick,
            IdleEvent::Idle => IdleEventKind::Idle,
            IdleEvent::Ping(_) => IdleEventKind::Ping,
            IdleEvent::Pong => IdleEventKind::Pong,
            IdleEvent::Other => IdleEventKind::Other,
        }
    }
}

impl IdleAction {
    /// The kind of this action.
    pub open spec fn kind(self) -> IdleActionKind {
        match self {
            IdleAction::Continue => IdleActionKind::Continue,
            IdleAction::SendToken(_) => IdleActionKind::SendToken,
            IdleAction::SendTimestamp => IdleActionKind::SendTimestamp,
            IdleAction::Stop => IdleActionKind::Stop,
            IdleAction::TimedOut => IdleActionKind::TimedOut,
        }
    }
}

/// The time from `then` to `now`, or 0 when `now` is earlier.
pub open spec fn elapsed(then: u64, now: u64) -> int {
    if now >= then {
        now - then
    } else {
        0
    }
}

/// Whether `state` is waiting for a `PONG`.
pub open spec fn is_waiting(state: TimeoutState) -> bool {
    state matches TimeoutState::WaitingForPong(_)
}

/// The effect of an event on the state, before the deadlines are checked: the new state and
/// what to send or whether to stop.
pub open spec fn on_event(state: TimeoutState, event: IdleEventKind, now: u64) -> (TimeoutState, IdleActionKind) {
    match event {
        IdleEventKind::Disconnected => (state, IdleActionKind::Stop),
        IdleEventKind::Quit => (state, IdleActionKind::Stop),
        IdleEventKind::Tick => (TimeoutState::Activity(now), IdleActionKind::Continue),
        IdleEventKind::Ping => (TimeoutState::Activity(now), IdleActionKind::SendToken),
        IdleEventKind::Pong => if is_waiting(state) {
            (TimeoutState::Activity(now), IdleActionKind::Continue)
        } else {
            (state, IdleActionKind::Continue)
        },
        IdleEventKind::Idle => if is_waiting(state) {
            (state, IdleActionKind::Continue)
        } else {
            (TimeoutState::WaitingForPong(now), IdleActionKind::SendTimestamp)
        },
        IdleEventKind::Other => (state, IdleActionKind::Continue),
    }
}

/// The deadline check that follows an event that neither stopped the loop nor sent anything:
/// waiting too long for a `PONG` is a timeout, and activity that is too old sends a heartbeat.
pub open spec fn check_deadlines(state: TimeoutState, now: u64) -> (TimeoutState, IdleActionKind) {
    match state {
        TimeoutState::WaitingForPong(dt) => if elapsed(dt, now) > TIMEOUT_MILLIS {
            (state, IdleActionKind::TimedOut)
        } else {
            (state, IdleActionKind::Continue)
        },
        TimeoutState::Activity(dt) => if elapsed(dt, now) > TIMEOUT_MILLIS {
            (TimeoutState::WaitingForPong(now), IdleActionKind::SendTimestamp)
        } else {
            (state, IdleActionKind::Continue)
        },
        TimeoutState::Start => (state, IdleActionKind::Continue),
    }
}

/// One step of idle detection: the event, then the deadlines.
pub open spec fn idle_transition(state: TimeoutState, event: IdleEventKind, now: u64) -> (TimeoutState, IdleActionKind) {
    let (s1, a1) = on_event(state, event, now);
    if a1 == IdleActionKind::Continue {
        check_deadlines(s1, now)
    } else {
        (s1, a1)
    }
}

/// Decides what follows `event`, observed at `now` (in milliseconds) in `state`.
///
/// A heartbeat or answer that cannot be sent ends the loop without an error; the caller
/// does that.
pub fn idle_step(state: TimeoutState, event: IdleEvent, now: u64) -> (r: (TimeoutState, IdleAction))
    ensures
        (r.0, r.1.kind()) == idle_transition(state, event.kind(), now),
        event matches IdleEvent::Ping(t) ==> r.1 == IdleAction::SendToken(t),
{
    let (s1, a1) = match event {
        IdleEvent::Disconnected => return (state, IdleAction::Stop),
        IdleEvent::Quit => return (state, IdleAction::Stop),
        IdleEvent::Tick => (TimeoutState::Activity(now), IdleAction::Continue),
        IdleEvent::Ping(token) => return (TimeoutState::Activity(now), IdleAction::SendToken(token)),
        IdleEvent::Pong => match state {
            TimeoutState::WaitingForPong(_) => (TimeoutState::Activity(now), IdleAction::Continue),
            _ => (state, IdleAction::Continue),
        },
        IdleEvent::Idle => match state {
            TimeoutState::WaitingForPong(_) => (state, IdleAction::Continue),
            _ => return (TimeoutState::WaitingForPong(now), IdleAction::SendTimestamp),
        },
        IdleEvent::Other => (state, IdleAction::Continue),
    };
    match s1 {
        TimeoutState::WaitingForPong(dt) => {
            if now.saturating_sub(dt) > TIMEOUT_MILLIS {
                (s1, IdleAction::TimedOut)
            } else {
                (s1, a1)
            }
        },
        TimeoutState::Activity(dt) => {
            if now.saturating_sub(dt) > TIMEOUT_MILLIS {
                (TimeoutState::WaitingForPong(now), IdleAction::SendTimestamp)
            } else {
                (s1, a1)
            }
        },
        TimeoutState::Start => (s1, a1),
    }
}

/// The idle event that reading `msg` is: a `PING` (with its token), a `PONG`, or another message.
pub fn classify_message(msg: IrcMessage) -> (r: IdleEvent)
    requires
        commands_result(Ok(()), msg),
    ensures
        command_kind(msg) == CommandKind::Ping ==> (r matches IdleEvent::Ping(t) && msg.spec_parts().data
            matches Some(d) && encode_utf8(t@) == d.bytes_of(msg.raw_bytes())),
        command_kind(msg) == CommandKind::Pong ==> r is Pong,
        command_kind(msg) != CommandKind::Ping && command_kind(msg) != CommandKind::Pong ==> r is Other,
{
    match Commands::from_irc(msg) {
        Ok(Commands::Ping(p)) => IdleEvent::Ping(p.token().to_owned()),
        Ok(Commands::Pong(_)) => IdleEvent::Pong,
        _ => IdleEvent::Other,
    }
}

/// The idle event that waiting for activity gave: nothing within the window is [`IdleEvent::Idle`],
/// and a message read is classified by its command.
pub fn idle_event_of(received: Received) -> (r: IdleEvent)
    requires
        received matches Received::Activity(Activity::Message(m)) ==> commands_result(Ok(()), m),
    ensures
        match received {
            Received::Disconnected => r is Disconnected,
            Received::TimedOut => r is Idle,
            Received::Activity(Activity::Tick) => r is Tick,
            Received::Activity(Activity::Quit) => r is Quit,
            Received::Activity(Activity::Message(m)) => {
                &&& command_kind(m) == CommandKind::Ping ==> (r matches IdleEvent::Ping(t) && m.spec_parts().data
                    matches Some(d) && encode_utf8(t@) == d.bytes_of(m.raw_bytes()))
                &&& command_kind(m) == CommandKind::Pong ==> r is Pong
                &&& command_kind(m) != CommandKind::Ping && command_kind(m) != CommandKind::Pong ==> r is Other
            },
        },
{
    match received {
        Received::Disconnected => IdleEvent::Disconnected,
        Received::TimedOut => IdleEvent::Idle,
        Received::Activity(Activity::Tick) => IdleEvent::Tick,
        Received::Activity(Activity::Quit) => IdleEvent::Quit,
        Received::Activity(Activity::Message(m)) => classify_message(m),
    }
}

} // verus!

verus! {

/// A timeout is reported only while waiting for a `PONG`, once more than the timeout has
/// passed since the heartbeat, and only on an event that is neither activity nor the answer.
pub proof fn timeout_only_when_pong_is_late(state: TimeoutState, event: IdleEventKind, now: u64)
    ensures
        idle_transition(state, event, now).1 == IdleActionKind::TimedOut ==> {
            &&& state matches TimeoutState::WaitingForPong(dt) && elapsed(dt, now) > TIMEOUT_MILLIS
            &&& (event == IdleEventKind::Idle || event == IdleEventKind::Other)
        },
{
}

/// Activity, and a `PING` from the server, always restart the idle window at the current time.
pub proof fn activity_restarts_the_window(state: TimeoutState, now: u64)
    ensures
        idle_transition(state, IdleEventKind::Tick, now) == (TimeoutState::Activity(now), IdleActionKind::Continue),
        idle_transition(state, IdleEventKind::Ping, now) == (TimeoutState::Activity(now), IdleActionKind::SendToken),
{
}

/// Quitting, or losing the sender of activity, stops the loop without an error and leaves the
/// state as it was.
pub proof fn quit_stops(state: TimeoutState, now: u64)
    ensures
        idle_transition(state, IdleEventKind::Quit, now) == (state, IdleActionKind::Stop),
        idle_transition(state, IdleEventKind::Disconnected, now) == (state, IdleActionKind::Stop),
{
}

/// A whole idle window without activity sends a heartbeat, unless one is already waiting for
/// its answer; a `PONG` that then arrives is activity again.
pub proof fn idle_sends_heartbeat_and_pong_answers_it(state: TimeoutState, t0: u64, t1: u64)
    requires
        !is_waiting(state),
    ensures
        idle_transition(state, IdleEventKind::Idle, t0) == (TimeoutState::WaitingForPong(t0), IdleActionKind::SendTimestamp),
        idle_transition(TimeoutState::WaitingForPong(t0), IdleEventKind::Pong, t1) == (TimeoutState::Activity(t1), IdleActionKind::Continue),
{
}

/// While a heartbeat waits for its answer, nothing times out within the timeout.
pub proof fn no_timeout_within_the_timeout(t0: u64, event: IdleEventKind, now: u64)
    requires
        elapsed(t0, now) <= TIMEOUT_MILLIS,
    ensures
        idle_transition(TimeoutState::WaitingForPong(t0), event, now).1 != IdleActionKind::TimedOut,
{
}

} // verus!
