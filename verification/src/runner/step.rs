//! One step of the main loop: what each event does to the runner's state, and what must be
//! sent or dispatched.
use vstd::prelude::*;
use vstd::string::StringSliceAdditionalSpecFns;
use vstd::utf8::{valid_utf8, decode_utf8, encode_utf8};
use crate::irc::message::{IrcMessage, args_nth};
use crate::irc::parser::spec_parse_parts;
use crate::maybe_owned::MaybeOwned;
use crate::decoder::error::DecodeError;
use crate::commands::{pong, simple_line, encode_to_vec};
use crate::runner::status::Status;
use crate::runner::runner_error::RunnerError;
use crate::runner::timeout::{TimeoutState, elapsed, is_waiting, TIMEOUT_MILLIS, WINDOW_MILLIS};
use crate::runner::rate_limit::{
    RateLimit, RateLimitedChannels, position_of, spec_enqueue, spec_from_class, RateClass,
    RateStatus, status_updated, channel_added, channel_removed, enqueued_for, enqueued_global,
};
use crate::runner::wait_for::{WaitFor, wait_for_added};
use crate::text::str_eq;
use crate::io_errors::{io_error, IoErrorKind};
use vstd::string::StringExecFns;

verus! {

broadcast use vstd::string::group_string_axioms, vstd::utf8::encode_utf8_valid_utf8;

/// What the main loop observed.
pub enum StepEvent {
    /// A message was read, or reading failed
    Read(Result<IrcMessage<'static>, DecodeError>),
    /// A message was written
    Activity,
    /// The server sent a `PING` with this token
    Ping(String),
    /// The server sent a `PONG`
    Pong,
    /// The server sent a notice to a channel, with its `msg-id` tag
    Notice {
        /// The channel
        channel: String,
        /// The kind of notice
        msg_id: Option<String>,
    },
    /// Someone joined a channel
    Join {
        /// Who joined
        name: String,
        /// The channel
        channel: String,
    },
    /// Someone left a channel
    Part {
        /// Who left
        name: String,
        /// The channel
        channel: String,
    },
    /// The server said we are connected, under this name
    Ready {
        /// Our name
        username: String,
    },
    /// The settings of a channel, with its slow-mode delay when it is in slow mode
    RoomState {
        /// The channel
        channel: String,
        /// The slow-mode delay, in seconds
        slow: Option<u64>,
    },
    /// These bytes were handed to the writer, to be sent under the rate limits
    Write(Vec<u8>),
    /// The idle window passed without any event
    Timeout,
    /// An event source closed
    Closed,
}

/// What the main loop must do after a step, in order.
pub enum StepAction {
    /// Hand this message to the subscribers
    Dispatch(IrcMessage<'static>),
    /// Send these bytes
    Send(Vec<u8>),
    /// Send a `PING` with a fresh timestamp as its token
    SendPing,
}

/// Whether the main loop goes on.
#[derive(Copy, Clone, Debug, PartialEq, Eq, Structural)]
pub enum StepResult {
    /// Wait for the next event
    Continue,
    /// Stop, with this status
    Break(Status),
}

/// The state of the main loop.
pub struct RunnerState {
    timeout: TimeoutState,
    user_name: Option<String>,
    channels: Vec<String>,
    rate_limit: RateLimitedChannels,
    wait_for: WaitFor,
}

/// The deadlines checked after each event: waiting too long for a `PONG` ends the loop, and
/// a whole idle window since the last activity sends a `PING`.
pub open spec fn runner_deadlines(state: TimeoutState, now: u64) -> (TimeoutState, StepResult, bool) {
    match state {
        TimeoutState::WaitingForPong(dt) => if elapsed(dt, now) > TIMEOUT_MILLIS {
            (state, StepResult::Break(Status::TimedOut), false)
        } else {
            (state, StepResult::Continue, false)
        },
        TimeoutState::Activity(dt) => if elapsed(dt, now) > WINDOW_MILLIS {
            (TimeoutState::WaitingForPong(now), StepResult::Continue, true)
        } else {
            (state, StepResult::Continue, false)
        },
        TimeoutState::Start => (state, StepResult::Continue, false),
    }
}

/// The `PONG` line answering `token`.
pub open spec fn pong_line(token: Seq<u8>) -> Seq<u8> {
    simple_line("PONG :".spec_bytes(), token)
}

/// The channel a written line is a chat message to: the first argument of a `PRIVMSG`.
pub open spec fn privmsg_channel(b: Seq<u8>) -> Option<Seq<u8>> {
    if b.len() > u16::MAX {
        None
    } else {
        match spec_parse_parts(b) {
            Some(parts) => if parts.command.bytes_of(b) == IrcMessage::PRIVMSG.spec_bytes() {
                match args_nth(b, parts, 0) {
                    Some(i) => Some(i.bytes_of(b)),
                    None => None,
                }
            } else {
                None
            },
            None => None,
        }
    }
}

/// The actions sending each of `msgs`, in order.
pub open spec fn sends(msgs: Seq<Vec<u8>>) -> Seq<StepAction> {
    msgs.map_values(|m: Vec<u8>| StepAction::Send(m))
}

impl RunnerState {
    /// The idle detection state.
    pub closed spec fn spec_timeout(self) -> TimeoutState {
        self.timeout
    }

    /// The name the server gave us, once it did.
    pub closed spec fn spec_user_name(self) -> Option<Seq<char>> {
        match self.user_name {
            Some(n) => Some(n@),
            None => None,
        }
    }

    /// The channels we are on.
    pub closed spec fn spec_channels(self) -> Seq<Seq<char>> {
        self.channels@.map_values(|c: String| c@)
    }

    /// The rate limits.
    pub closed spec fn spec_rate_limit(self) -> RateLimitedChannels {
        self.rate_limit
    }

    /// The messages being waited for.
    pub closed spec fn spec_wait_for(self) -> WaitFor {
        self.wait_for
    }

    /// The parts are well formed, and each channel is listed once.
    pub open spec fn wf(self) -> bool {
        &&& self.spec_rate_limit().wf()
        &&& self.spec_wait_for().wf()
        &&& forall|i: int, j: int|
            0 <= i < j < self.spec_channels().len() ==> self.spec_channels()[i] != self.spec_channels()[j]
    }

    /// A fresh main loop: no activity, no name, no channels.
    pub fn new(are_we_anonymous: bool, global_rate: RateLimit) -> (r: Self)
        ensures
            r.wf(),
            r.spec_timeout() == TimeoutState::Start,
            r.spec_user_name() is None,
            r.spec_channels() == Seq::<Seq<char>>::empty(),
            r.spec_rate_limit().spec_names() == Seq::<Seq<char>>::empty(),
            r.spec_rate_limit().spec_global().spec_rate_limit() == global_rate,
            r.spec_wait_for().spec_anonymous() == are_we_anonymous,
    {
        let r = RunnerState {
            timeout: TimeoutState::Start,
            user_name: None,
            channels: Vec::new(),
            rate_limit: RateLimitedChannels::new(global_rate),
            wait_for: WaitFor::new(are_we_anonymous),
        };
        assert(r.spec_channels() =~= Seq::<Seq<char>>::empty());
        r
    }
}

} // verus!

verus! {

/// The names of `v`.
pub open spec fn names_of(v: Seq<String>) -> Seq<Seq<char>> {
    v.map_values(|c: String| c@)
}

/// Adds `name` to the list `v` of distinct names, unless it is there.
fn insert_name(v: &mut Vec<String>, name: &str)
    requires
        forall|i: int, j: int| 0 <= i < j < names_of(old(v)@).len() ==> names_of(old(v)@)[i] != names_of(old(v)@)[j],
    ensures
        forall|i: int, j: int| 0 <= i < j < names_of(final(v)@).len() ==> names_of(final(v)@)[i] != names_of(final(v)@)[j],
        names_of(final(v)@) == if names_of(old(v)@).contains(name@) {
            names_of(old(v)@)
        } else {
            names_of(old(v)@).push(name@)
        },
{
    let ghost ns = names_of(v@);
    let mut i: usize = 0;
    while i < v.len()
        invariant
            i <= v@.len(),
            ns == names_of(v@),
            forall|a: int, b: int| 0 <= a < b < ns.len() ==> ns[a] != ns[b],
            forall|k: int| 0 <= k < i ==> ns[k] != name@,
        decreases v@.len() - i,
    {
        if str_eq(v[i].as_str(), name) {
            assert(ns[i as int] == name@);
            return;
        }
        i = i + 1;
    }
    v.push(name.to_owned());
    assert(names_of(v@) =~= ns.push(name@));
}

/// Removes `name` from the list `v` of distinct names, if it is there.
fn remove_name(v: &mut Vec<String>, name: &str)
    requires
        forall|i: int, j: int| 0 <= i < j < names_of(old(v)@).len() ==> names_of(old(v)@)[i] != names_of(old(v)@)[j],
    ensures
        forall|i: int, j: int| 0 <= i < j < names_of(final(v)@).len() ==> names_of(final(v)@)[i] != names_of(final(v)@)[j],
        match position_of(names_of(old(v)@), name@) {
            Some(p) => names_of(final(v)@) == names_of(old(v)@).remove(p),
            None => names_of(final(v)@) == names_of(old(v)@),
        },
{
    let ghost ns = names_of(v@);
    let ghost v0 = v@;
    let mut i: usize = 0;
    while i < v.len()
        invariant
            i <= v@.len(),
            v@ == v0,
            ns == names_of(v@),
            ns == names_of(old(v)@),
            forall|a: int, b: int| 0 <= a < b < ns.len() ==> ns[a] != ns[b],
            forall|k: int| 0 <= k < i ==> ns[k] != name@,
        decreases v@.len() - i,
    {
        if str_eq(v[i].as_str(), name) {
            proof {
                assert(ns[i as int] == name@);
                let j = choose|j: int| 0 <= j < ns.len() && ns[j] == name@;
                if j < i {
                    assert(ns[j] != name@);
                } else if j > i {
                    assert(ns[i as int] != ns[j]);
                }
                assert(position_of(ns, name@) == Some(i as int));
            }
            let _ = v.remove(i);
            assert(names_of(v@) =~= ns.remove(i as int));
            proof {
                let ms = names_of(v@);
                assert forall|a: int, b: int| 0 <= a < b < ms.len() implies ms[a] != ms[b] by {
                    let a0 = if a < i { a } else { a + 1 };
                    let b0 = if b < i { b } else { b + 1 };
                    assert(ms[a] == ns[a0]);
                    assert(ms[b] == ns[b0]);
                }
            }
            return;
        }
        i = i + 1;
    }
}

/// The error for writing to a channel we are not on: `you're not on '<channel>'`.
fn not_on_channel(channel: &str) -> std::io::Error {
    let mut text = String::from_str("you're not on '");
    text.append(channel);
    text.append("'");
    io_error(IoErrorKind::InvalidInput, text)
}

} // verus!

verus! {

/// The idle detection state after `event`, before the deadlines are checked.
pub open spec fn event_timeout(state: TimeoutState, event: StepEvent, now: u64) -> TimeoutState {
    match event {
        StepEvent::Read(Ok(_)) => TimeoutState::Activity(now),
        StepEvent::Activity => TimeoutState::Activity(now),
        StepEvent::Ping(_) => TimeoutState::Activity(now),
        StepEvent::Pong => if is_waiting(state) {
            TimeoutState::Activity(now)
        } else {
            state
        },
        StepEvent::Timeout => TimeoutState::WaitingForPong(now),
        _ => state,
    }
}

/// Whether `event` ends the step early: reading failed or hit the end, an event source
/// closed, a join or part arrived before the server named us, or a chat message was written
/// to a channel we are not on.
pub open spec fn ends_early(old: RunnerState, event: StepEvent) -> bool {
    match event {
        StepEvent::Read(Err(_)) => true,
        StepEvent::Closed => true,
        StepEvent::Join { .. } => old.spec_user_name() is None,
        StepEvent::Part { .. } => old.spec_user_name() is None,
        StepEvent::Write(data) => privmsg_channel(data@) matches Some(ch) && position_of(
            old.spec_rate_limit().spec_names(),
            decode_utf8(ch),
        ) is None,
        _ => false,
    }
}

/// The outcome of an event that ends the step early; the state does not change.
pub open spec fn early_result(event: StepEvent, r: Result<(StepResult, Vec<StepAction>), RunnerError>) -> bool {
    match event {
        StepEvent::Read(Err(DecodeError::Eof)) => r matches Ok((StepResult::Break(Status::Eof), a)) && a@.len() == 0,
        StepEvent::Read(Err(e)) => r matches Err(RunnerError::Decode(e2)) && e2 == e,
        StepEvent::Closed => r matches Ok((StepResult::Break(Status::Eof), a)) && a@.len() == 0,
        StepEvent::Join { .. } => r matches Err(RunnerError::InvalidConnection),
        StepEvent::Part { .. } => r matches Err(RunnerError::InvalidConnection),
        StepEvent::Write(_) => r matches Err(RunnerError::Io(_)),
        _ => false,
    }
}

/// The kind of notice that changes a channel's rate limit.
pub open spec fn notice_status(msg_id: Option<String>) -> Option<RateStatus> {
    match msg_id {
        Some(id) => if id@ == "slow_on"@ {
            Some(RateStatus::SlowMode(30))
        } else if id@ == "slow_off"@ {
            Some(RateStatus::Normal)
        } else if id@ == "msg_ratelimit"@ {
            Some(RateStatus::Limited)
        } else {
            None
        },
        None => None,
    }
}

/// What `event` does to the rate limits, and the actions it asks for (before any `PING` the
/// deadlines add), when it does not end the step early.
pub open spec fn event_effect(old: RunnerState, new: RunnerState, event: StepEvent, now: u64, acts: Seq<StepAction>) -> bool {
    let rl0 = old.spec_rate_limit();
    let rl1 = new.spec_rate_limit();
    match event {
        StepEvent::Read(Ok(msg)) => {
            &&& wait_for_added(old.spec_wait_for(), new.spec_wait_for(), msg)
            &&& rl1 == rl0
            &&& acts == seq![StepAction::Dispatch(msg)]
        },
        StepEvent::Ping(token) => {
            &&& rl1 == rl0
            &&& acts.len() == 1
            &&& acts[0] matches StepAction::Send(v) && v@ == pong_line(encode_utf8(token@))
        },
        StepEvent::Notice { channel, msg_id } => {
            &&& acts.len() == 0
            &&& match notice_status(msg_id) {
                Some(st) => status_updated(rl0, rl1, channel@, st),
                None => rl1 == rl0,
            }
        },
        StepEvent::Join { name, channel } => {
            &&& acts.len() == 0
            &&& if old.spec_user_name() == Some(name@) {
                channel_added(rl0, rl1, channel@, spec_from_class(RateClass::Regular))
            } else {
                rl1 == rl0
            }
        },
        StepEvent::Part { name, channel } => {
            &&& acts.len() == 0
            &&& if old.spec_user_name() == Some(name@) {
                channel_removed(rl0, rl1, channel@)
            } else {
                rl1 == rl0
            }
        },
        StepEvent::RoomState { channel, slow } => {
            &&& acts.len() == 0
            &&& match slow {
                Some(n) => status_updated(rl0, rl1, channel@, RateStatus::SlowMode(n)),
                None => rl1 == rl0,
            }
        },
        StepEvent::Write(data) => match privmsg_channel(data@) {
            Some(ch) => {
                let p = position_of(rl0.spec_names(), decode_utf8(ch))->0;
                let c0 = rl0.spec_channels()[p];
                &&& exists|v: Vec<Vec<u8>>| #[trigger] enqueued_for(rl0, rl1, decode_utf8(ch), data, now, Some(v))
                &&& acts == sends(spec_enqueue(c0.spec_queue(), c0.spec_rate_limit(), data, now).0)
            },
            None => {
                &&& exists|v: Vec<Vec<u8>>| #[trigger] enqueued_global(rl0, rl1, data, now, v)
                &&& acts == sends(
                    spec_enqueue(rl0.spec_global().spec_queue(), rl0.spec_global().spec_rate_limit(), data, now).0,
                )
            },
        },
        StepEvent::Timeout => {
            &&& rl1 == rl0
            &&& acts == seq![StepAction::SendPing]
        },
        _ => {
            &&& rl1 == rl0
            &&& acts.len() == 0
        },
    }
}

/// The names and channels we track after `event`.
pub open spec fn names_after(old: RunnerState, event: StepEvent) -> (Option<Seq<char>>, Seq<Seq<char>>) {
    match event {
        StepEvent::Ready { username } => (Some(username@), old.spec_channels()),
        StepEvent::Join { name, channel } => if old.spec_user_name() == Some(name@) && !old.spec_channels().contains(
            channel@,
        ) {
            (old.spec_user_name(), old.spec_channels().push(channel@))
        } else {
            (old.spec_user_name(), old.spec_channels())
        },
        StepEvent::Part { name, channel } => if old.spec_user_name() == Some(name@) {
            match position_of(old.spec_channels(), channel@) {
                Some(p) => (old.spec_user_name(), old.spec_channels().remove(p)),
                None => (old.spec_user_name(), old.spec_channels()),
            }
        } else {
            (old.spec_user_name(), old.spec_channels())
        },
        _ => (old.spec_user_name(), old.spec_channels()),
    }
}

/// `new` and `r` are what one step of the main loop makes of `old` and `event` at `now`.
pub open spec fn stepped(old: RunnerState, new: RunnerState, event: StepEvent, now: u64, r: Result<(StepResult, Vec<StepAction>), RunnerError>) -> bool {
    if ends_early(old, event) {
        new == old && early_result(event, r)
    } else {
        let (t2, res, ping) = runner_deadlines(event_timeout(old.spec_timeout(), event, now), now);
        &&& r matches Ok((res2, acts)) && res2 == res && {
            let n = acts@.len() - (if ping { 1int } else { 0 });
            &&& n >= 0
            &&& event_effect(old, new, event, now, acts@.take(n))
            &&& ping ==> acts@.last() is SendPing
        }
        &&& new.spec_timeout() == t2
        &&& (new.spec_user_name(), new.spec_channels()) == names_after(old, event)
        &&& !(event is Read) ==> new.spec_wait_for() == old.spec_wait_for()
        &&& new.wf()
    }
}

} // verus!

verus! {

/// The channel that the written line `data` is a chat message to, if it is one.
fn privmsg_target(data: &Vec<u8>) -> (r: Option<String>)
    requires
        valid_utf8(data@),
    ensures
        match privmsg_channel(data@) {
            Some(ch) => r matches Some(s) && s@ == decode_utf8(ch),
            None => r is None,
        },
{
    if data.len() > 65535 {
        return None;
    }
    let s = match crate::decoder::line::str_from_utf8(data.as_slice()) {
        Ok(s) => s,
        Err(_) => return None,
    };
    match IrcMessage::parse(MaybeOwned::Borrowed(s)) {
        Ok(m) => {
            if m.is_command(IrcMessage::PRIVMSG) {
                match m.nth_arg(0) {
                    Some(c) => {
                        proof {
                            vstd::utf8::encode_utf8_decode_utf8(c@);
                        }
                        Some(c.to_owned())
                    },
                    None => None,
                }
            } else {
                None
            }
        },
        Err(_) => None,
    }
}

proof fn lemma_event_effect_frame(old: RunnerState, a: RunnerState, b: RunnerState, event: StepEvent, now: u64, acts: Seq<StepAction>)
    requires
        event_effect(old, a, event, now, acts),
        a.spec_rate_limit() == b.spec_rate_limit(),
        a.spec_wait_for() == b.spec_wait_for(),
    ensures
        event_effect(old, b, event, now, acts),
{
}

/// Appends an action sending each of `msgs`, in order.
fn push_sends(acts: &mut Vec<StepAction>, msgs: Vec<Vec<u8>>)
    ensures
        final(acts)@ == old(acts)@ + sends(msgs@),
{
    let mut v = msgs;
    let ghost all = v@;
    let ghost a0 = acts@;
    let mut i: usize = 0;
    while v.len() > 0
        invariant
            acts@ + sends(v@) == a0 + sends(all),
        decreases v@.len(),
    {
        let ghost before = v@;
        let m = v.remove(0);
        assert(sends(before) =~= seq![StepAction::Send(m)] + sends(v@));
        acts.push(StepAction::Send(m));
        assert(acts@ + sends(v@) =~= a0 + sends(all));
    }
    assert(sends(v@) =~= Seq::<StepAction>::empty());
    assert(acts@ =~= a0 + sends(all));
}

impl RunnerState {
    /// One step of the main loop: the effect of `event`, observed at `now` (in milliseconds),
    /// then the deadlines; gives whether to go on and the actions to perform, in order.
    ///
    /// A read error, the end of the input or a closed source ends the loop; so does a join
    /// or part before the server named us, and a chat message written to a channel we are not on.
    #[verifier::spinoff_prover]
    #[verifier::rlimit(50)]
    pub fn step(&mut self, event: StepEvent, now: u64) -> (r: Result<(StepResult, Vec<StepAction>), RunnerError>)
        requires
            old(self).wf(),
            event matches StepEvent::Write(data) ==> valid_utf8(data@),
        ensures
            stepped(*old(self), *final(self), event, now, r),
    {
        let mut acts: Vec<StepAction> = Vec::new();
        match event {
            StepEvent::Read(res) => match res {
                Err(DecodeError::Eof) => return Ok((StepResult::Break(Status::Eof), acts)),
                Err(e) => return Err(RunnerError::Decode(e)),
                Ok(msg) => {
                    self.wait_for.maybe_add(&msg);
                    acts.push(StepAction::Dispatch(msg));
                    self.timeout = TimeoutState::Activity(now);
                    assert(event_effect(*old(self), *self, event, now, acts@));
                },
            },
            StepEvent::Activity => {
                self.timeout = TimeoutState::Activity(now);
            },
            StepEvent::Ping(token) => {
                let bytes = encode_to_vec(&pong(token.as_str()));
                acts.push(StepAction::Send(bytes));
                self.timeout = TimeoutState::Activity(now);
                assert(event_effect(*old(self), *self, event, now, acts@));
            },
            StepEvent::Pong => {
                if let TimeoutState::WaitingForPong(_) = self.timeout {
                    self.timeout = TimeoutState::Activity(now);
                }
            },
            StepEvent::Notice { channel, msg_id } => {
                match msg_id {
                    Some(id) => {
                        if str_eq(id.as_str(), "slow_on") {
                            self.rate_limit.enable_slow(channel.as_str());
                        } else if str_eq(id.as_str(), "slow_off") {
                            self.rate_limit.disable_slow(channel.as_str());
                        } else if str_eq(id.as_str(), "msg_ratelimit") {
                            self.rate_limit.rate_limited_on_channel(channel.as_str());
                        }
                    },
                    None => {},
                }
                assert(event_effect(*old(self), *self, event, now, acts@));
            },
            StepEvent::Join { name, channel } => {
                let is_me = match &self.user_name {
                    None => return Err(RunnerError::InvalidConnection),
                    Some(u) => str_eq(u.as_str(), name.as_str()),
                };
                if is_me {
                    assert(names_of(self.channels@) =~= self.spec_channels());
                    insert_name(&mut self.channels, channel.as_str());
                    self.rate_limit.add_channel(channel.as_str(), RateLimit::default());
                }
                assert(event_effect(*old(self), *self, event, now, acts@));
            },
            StepEvent::Part { name, channel } => {
                let is_me = match &self.user_name {
                    None => return Err(RunnerError::InvalidConnection),
                    Some(u) => str_eq(u.as_str(), name.as_str()),
                };
                if is_me {
                    assert(names_of(self.channels@) =~= self.spec_channels());
                    remove_name(&mut self.channels, channel.as_str());
                    self.rate_limit.remove_channel(channel.as_str());
                }
                assert(event_effect(*old(self), *self, event, now, acts@));
            },
            StepEvent::Ready { username } => {
                self.user_name = Some(username);
            },
            StepEvent::RoomState { channel, slow } => {
                match slow {
                    Some(n) => self.rate_limit.set_slow_duration(channel.as_str(), n),
                    None => {},
                }
                assert(event_effect(*old(self), *self, event, now, acts@));
            },
            StepEvent::Write(data) => {
                match privmsg_target(&data) {
                    Some(ch) => {
                        if !self.rate_limit.has_channel(ch.as_str()) {
                            return Err(RunnerError::Io(not_on_channel(ch.as_str())));
                        }
                        match self.rate_limit.enqueue_for(ch.as_str(), data, now) {
                            Some(out) => push_sends(&mut acts, out),
                            None => {},
                        }
                    },
                    None => {
                        let out = self.rate_limit.global_enqueue(data, now);
                        push_sends(&mut acts, out);
                    },
                }
                assert(event_effect(*old(self), *self, event, now, acts@));
            },
            StepEvent::Timeout => {
                acts.push(StepAction::SendPing);
                self.timeout = TimeoutState::WaitingForPong(now);
            },
            StepEvent::Closed => return Ok((StepResult::Break(Status::Eof), acts)),
        }
        assert(self.spec_timeout() == event_timeout(old(self).spec_timeout(), event, now));
        assert(event_effect(*old(self), *self, event, now, acts@));
        assert((self.spec_user_name(), self.spec_channels()) == names_after(*old(self), event));
        assert(self.wf());
        assert(!ends_early(*old(self), event));
        let ghost mid = *self;
        let ghost mid_acts = acts@;
        let res = match self.timeout {
            TimeoutState::WaitingForPong(dt) => {
                if now.saturating_sub(dt) > TIMEOUT_MILLIS {
                    StepResult::Break(Status::TimedOut)
                } else {
                    StepResult::Continue
                }
            },
            TimeoutState::Activity(dt) => {
                if now.saturating_sub(dt) > WINDOW_MILLIS {
                    acts.push(StepAction::SendPing);
                    self.timeout = TimeoutState::WaitingForPong(now);
                }
                StepResult::Continue
            },
            TimeoutState::Start => StepResult::Continue,
        };
        proof {
            let (t2, res2, ping) = runner_deadlines(mid.spec_timeout(), now);
            assert(t2 == self.spec_timeout());
            assert(res2 == res);
            assert(acts@.len() == mid_acts.len() + (if ping { 1int } else { 0 }));
            assert(acts@.take(mid_acts.len() as int) =~= mid_acts);
            assert(self.spec_rate_limit() == mid.spec_rate_limit());
            assert(self.spec_wait_for() == mid.spec_wait_for());
            assert(event_effect(*old(self), mid, event, now, mid_acts));
            lemma_event_effect_frame(*old(self), mid, *self, event, now, mid_acts);
        }
        Ok((res, acts))
    }
}

} // verus!

verus! {

/// A `PING` from the server is always answered, first, with a `PONG` carrying its token, and
/// counts as activity.
pub proof fn ping_is_answered(old: RunnerState, new: RunnerState, token: String, now: u64, r: Result<(StepResult, Vec<StepAction>), RunnerError>)
    requires
        stepped(old, new, StepEvent::Ping(token), now, r),
    ensures
        r matches Ok((res, acts)) && acts@.len() >= 1 && (acts@[0] matches StepAction::Send(v) && v@ == pong_line(
            encode_utf8(token@),
        )),
        new.spec_timeout() == TimeoutState::Activity(now),
{
    let (t2, res, ping) = runner_deadlines(TimeoutState::Activity(now), now);
    assert(!ping);
    if let Ok((_, acts)) = r {
        assert(acts@.take(acts@.len() as int)[0] == acts@[0]);
    }
}

/// A heartbeat that gets no `PONG` within the timeout ends the loop with `TimedOut`, whatever
/// else happens meanwhile, except activity and messages.
pub proof fn unanswered_ping_times_out(old: RunnerState, new: RunnerState, event: StepEvent, now: u64, r: Result<(StepResult, Vec<StepAction>), RunnerError>, dt: u64)
    requires
        stepped(old, new, event, now, r),
        old.spec_timeout() == TimeoutState::WaitingForPong(dt),
        elapsed(dt, now) > TIMEOUT_MILLIS,
        !ends_early(old, event),
        !(event is Read || event is Activity || event is Ping || event is Pong || event is Timeout),
    ensures
        r matches Ok((res, _)) && res == StepResult::Break(Status::TimedOut),
{
}

/// A whole idle window after the last activity sends a heartbeat and waits for its answer.
pub proof fn idle_window_sends_ping(old: RunnerState, new: RunnerState, now: u64, r: Result<(StepResult, Vec<StepAction>), RunnerError>)
    requires
        stepped(old, new, StepEvent::Timeout, now, r),
    ensures
        r matches Ok((res, acts)) && res == StepResult::Continue && acts@.len() == 1 && acts@[0] is SendPing,
        new.spec_timeout() == TimeoutState::WaitingForPong(now),
{
    if let Ok((_, acts)) = r {
        assert(acts@.take(acts@.len() as int) =~= acts@);
    }
}

/// Once the server named us, our own join makes the channel tracked, with the regular rate
/// limit, and our own part stops tracking it.
pub proof fn own_join_and_part_track_the_channel(
    old: RunnerState,
    mid: RunnerState,
    new: RunnerState,
    me: String,
    channel: String,
    t1: u64,
    t2: u64,
    r1: Result<(StepResult, Vec<StepAction>), RunnerError>,
    r2: Result<(StepResult, Vec<StepAction>), RunnerError>,
)
    requires
        old.wf(),
        old.spec_user_name() == Some(me@),
        stepped(old, mid, StepEvent::Join { name: me, channel }, t1, r1),
        stepped(mid, new, StepEvent::Part { name: me, channel }, t2, r2),
    ensures
        mid.spec_channels().contains(channel@),
        mid.spec_rate_limit().spec_names().contains(channel@),
        !new.spec_channels().contains(channel@),
        !new.spec_rate_limit().spec_names().contains(channel@),
{
    if !old.spec_channels().contains(channel@) {
        assert(mid.spec_channels().last() == channel@);
    }
    if !old.spec_rate_limit().spec_names().contains(channel@) {
        assert(mid.spec_rate_limit().spec_names().last() == channel@);
    }
    let p = position_of(mid.spec_channels(), channel@);
    assert(mid.spec_channels().contains(channel@));
    let k = choose|k: int| 0 <= k < mid.spec_channels().len() && mid.spec_channels()[k] == channel@;
    assert(mid.spec_channels()[k] == channel@);
    let pp = p->0;
    assert(mid.spec_channels()[pp] == channel@);
    assert forall|i: int| 0 <= i < new.spec_channels().len() implies new.spec_channels()[i] != channel@ by {
        let i0 = if i < pp { i } else { i + 1 };
        assert(new.spec_channels()[i] == mid.spec_channels()[i0]);
        if i0 != pp {
            if i0 < pp {
                assert(mid.spec_channels()[i0] != mid.spec_channels()[pp]);
            } else {
                assert(mid.spec_channels()[pp] != mid.spec_channels()[i0]);
            }
        }
    }
}

} // verus!

verus! {

/// An error returned when joining or leaving a channel.
#[derive(Debug, Clone, PartialEq, Eq)]
pub enum ChannelError {
    /// You could not leave this channel because you were not on it.
    NotOnChannel(String),
    /// You could not join this channel because you were already on it.
    AlreadyOnChannel(String),
}

impl ChannelError {
    /// The text that describes this error.
    pub fn to_string(&self) -> (r: String)
        ensures
            match self {
                ChannelError::NotOnChannel(c) => r@ == "Not on channel: "@ + c@,
                ChannelError::AlreadyOnChannel(c) => r@ == "Already on channel: "@ + c@,
            },
    {
        match self {
            ChannelError::NotOnChannel(c) => {
                let mut s = String::from_str("Not on channel: ");
                s.append(c.as_str());
                s
            },
            ChannelError::AlreadyOnChannel(c) => {
                let mut s = String::from_str("Already on channel: ");
                s.append(c.as_str());
                s
            },
        }
    }
}

impl RunnerState {
    /// Whether we are on the channel named `channel`.
    pub fn is_on_channel(&self, channel: &str) -> (r: bool)
        ensures
            r == self.spec_channels().contains(channel@),
    {
        let mut i: usize = 0;
        while i < self.channels.len()
            invariant
                i <= self.channels@.len(),
                forall|k: int| 0 <= k < i ==> self.spec_channels()[k] != channel@,
            decreases self.channels@.len() - i,
        {
            assert(self.spec_channels()[i as int] == self.channels@[i as int]@);
            if str_eq(self.channels[i].as_str(), channel) {
                return true;
            }
            i = i + 1;
        }
        false
    }

    /// Checks that we may join the channel named `channel`: we must not be on it already.
    pub fn check_join(&self, channel: &str) -> (r: Result<(), ChannelError>)
        ensures
            self.spec_channels().contains(channel@) ==> (r matches Err(ChannelError::AlreadyOnChannel(c)) && c@ == channel@),
            !self.spec_channels().contains(channel@) ==> r is Ok,
    {
        if self.is_on_channel(channel) {
            Err(ChannelError::AlreadyOnChannel(channel.to_owned()))
        } else {
            Ok(())
        }
    }

    /// Checks that we may leave the channel named `channel`: we must be on it.
    pub fn check_part(&self, channel: &str) -> (r: Result<(), ChannelError>)
        ensures
            !self.spec_channels().contains(channel@) ==> (r matches Err(ChannelError::NotOnChannel(c)) && c@ == channel@),
            self.spec_channels().contains(channel@) ==> r is Ok,
    {
        if self.is_on_channel(channel) {
            Ok(())
        } else {
            Err(ChannelError::NotOnChannel(channel.to_owned()))
        }
    }

    /// Set the global rate limiter 'class'. This is used for 'general' messages.
    pub fn set_custom_rate_limit(&mut self, rate_class: RateClass)
        ensures
            final(self).spec_rate_limit().spec_global().spec_rate_limit() == spec_from_class(rate_class),
            final(self).spec_rate_limit().spec_global().spec_queue() == old(self).spec_rate_limit().spec_global().spec_queue(),
            final(self).spec_rate_limit().spec_names() == old(self).spec_rate_limit().spec_names(),
            final(self).spec_rate_limit().spec_channels() == old(self).spec_rate_limit().spec_channels(),
            final(self).spec_timeout() == old(self).spec_timeout(),
            final(self).spec_user_name() == old(self).spec_user_name(),
            final(self).spec_channels() == old(self).spec_channels(),
            final(self).spec_wait_for() == old(self).spec_wait_for(),
    {
        self.rate_limit.set_global_rate_limit(rate_class);
    }

    /// Gives the channel named `channel` a full bucket of `rate_class`; `false` when the runner
    /// does not track that channel.
    pub fn set_rate_class_for_channel(&mut self, channel: &str, rate_class: RateClass) -> (r: bool)
        requires
            old(self).wf(),
        ensures
            final(self).wf(),
            r == old(self).spec_rate_limit().spec_names().contains(channel@),
            final(self).spec_timeout() == old(self).spec_timeout(),
            final(self).spec_user_name() == old(self).spec_user_name(),
            final(self).spec_channels() == old(self).spec_channels(),
            final(self).spec_wait_for() == old(self).spec_wait_for(),
            final(self).spec_rate_limit().spec_names() == old(self).spec_rate_limit().spec_names(),
    {
        let r = self.rate_limit.change_rate_class_for(channel, rate_class);
        assert(self.spec_channels() == old(self).spec_channels());
        proof {
            let names = old(self).spec_rate_limit().spec_names();
            if names.contains(channel@) {
                let k = choose|k: int| 0 <= k < names.len() && names[k] == channel@;
                assert(names[k] == channel@);
            }
        }
        r
    }

    /// The messages being waited for.
    pub fn wait_for_mut(&mut self) -> (r: &mut WaitFor)
        ensures
            *r == old(self).spec_wait_for(),
            final(self).spec_wait_for() == *final(r),
            final(self).spec_timeout() == old(self).spec_timeout(),
            final(self).spec_user_name() == old(self).spec_user_name(),
            final(self).spec_channels() == old(self).spec_channels(),
            final(self).spec_rate_limit() == old(self).spec_rate_limit(),
    {
        &mut self.wait_for
    }

    /// Forgets what was waited for, as when reconnecting.
    pub fn reset_wait_for(&mut self)
        requires
            old(self).wf(),
        ensures
            final(self).wf(),
            final(self).spec_wait_for().spec_want() == Seq::<(&'static str, usize)>::empty(),
            final(self).spec_wait_for().spec_anonymous() == old(self).spec_wait_for().spec_anonymous(),
            final(self).spec_timeout() == old(self).spec_timeout(),
            final(self).spec_user_name() == old(self).spec_user_name(),
            final(self).spec_channels() == old(self).spec_channels(),
            final(self).spec_rate_limit() == old(self).spec_rate_limit(),
    {
        let anonymous = self.wait_for.is_anonymous();
        self.wait_for = WaitFor::new(anonymous);
        assert(self.spec_channels() == old(self).spec_channels());
    }
}

} // verus!
