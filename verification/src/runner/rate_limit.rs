//! Rate limiting of the messages sent to Twitch: a token bucket per channel and one for
//! everything else, with the channel's status (limited, slow mode) shrinking its bucket.
use vstd::prelude::*;
use std::collections::VecDeque;
use vstd::string::StringSliceAdditionalSpecFns;
use crate::text::bytes_eq;

verus! {

broadcast use vstd::string::group_string_axioms;

/// The length, in seconds, of the period in which a rate class's tickets may be used.
pub const RATE_PERIOD_SECS: u64 = 30;

/// The class of rate limiting that applies to a user.
#[derive(Copy, Clone, Debug, PartialEq, Eq, Structural, Hash)]
pub enum RateClass {
    /// A regular user: 20 messages per 30 seconds
    Regular,
    /// A moderator: 100 messages per 30 seconds
    Moderator,
    /// A known bot: 50 messages per 30 seconds
    Known,
    /// A verified bot: 7500 messages per 30 seconds
    Verified,
}

impl RateClass {
    /// How many messages this class may send per period.
    pub open spec fn spec_tickets(self) -> u64 {
        match self {
            RateClass::Regular => 20,
            RateClass::Moderator => 100,
            RateClass::Known => 50,
            RateClass::Verified => 7500,
        }
    }

    /// How many messages this class may send per period.
    pub fn tickets(&self) -> (r: u64)
        ensures
            r == self.spec_tickets(),
    {
        match self {
            RateClass::Regular => 20,
            RateClass::Moderator => 100,
            RateClass::Known => 50,
            RateClass::Verified => 7500,
        }
    }
}

impl Default for RateClass {
    fn default() -> (r: Self)
        ensures
            r == RateClass::Regular,
    {
        RateClass::Regular
    }
}

/// A token bucket: up to `cap` tokens, all given back once a period has passed since the
/// bucket was last refilled. Times are in milliseconds.
#[derive(Copy, Clone, Debug, PartialEq, Eq, Structural)]
pub struct RateLimit {
    /// The most tokens the bucket holds
    pub cap: u64,
    /// The tokens left
    pub tokens: u64,
    /// The period, in seconds
    pub period_secs: u64,
    /// When the bucket was last refilled
    pub refilled_at: u64,
}

/// The rate class whose bucket has `cap` tokens per `period_secs`, if any.
pub open spec fn class_of(cap: u64, period_secs: u64) -> Option<RateClass> {
    if period_secs != RATE_PERIOD_SECS {
        None
    } else if cap == 20 {
        Some(RateClass::Regular)
    } else if cap == 100 {
        Some(RateClass::Moderator)
    } else if cap == 50 {
        Some(RateClass::Known)
    } else if cap == 7500 {
        Some(RateClass::Verified)
    } else {
        None
    }
}

/// The bucket of `class`, full.
pub open spec fn spec_from_class(class: RateClass) -> RateLimit {
    RateLimit {
        cap: class.spec_tickets(),
        tokens: class.spec_tickets(),
        period_secs: RATE_PERIOD_SECS,
        refilled_at: 0,
    }
}

/// The period in milliseconds (at most `u64::MAX`).
pub open spec fn period_millis(l: RateLimit) -> int {
    if l.period_secs * 1000 <= u64::MAX {
        l.period_secs * 1000
    } else {
        u64::MAX as int
    }
}

/// The bucket as seen at `now`: full again when a whole period has passed since its refill.
pub open spec fn refilled(l: RateLimit, now: u64) -> RateLimit {
    if now >= l.refilled_at && now - l.refilled_at >= period_millis(l) {
        RateLimit { tokens: l.cap, refilled_at: now, ..l }
    } else {
        l
    }
}

/// Taking `n` tokens at `now`: the tokens left, or how long (in milliseconds) until the
/// bucket is refilled; and the bucket afterwards.
pub open spec fn spec_consume(l: RateLimit, n: u64, now: u64) -> (Result<u64, u64>, RateLimit) {
    let f = refilled(l, now);
    if f.tokens >= n {
        (Ok((f.tokens - n) as u64), RateLimit { tokens: (f.tokens - n) as u64, ..f })
    } else {
        let since = if now >= f.refilled_at { now - f.refilled_at } else { 0 };
        let wait = if period_millis(f) > since { period_millis(f) - since } else { 0 };
        (Err(wait as u64), f)
    }
}

impl RateLimit {
    /// The well-formed buckets: no more tokens than the cap.
    pub open spec fn wf(self) -> bool {
        self.tokens <= self.cap
    }

    /// A full bucket for `rate_class`.
    pub fn from_class(rate_class: RateClass) -> (r: Self)
        ensures
            r == spec_from_class(rate_class),
            r.wf(),
    {
        let t = rate_class.tickets();
        RateLimit { cap: t, tokens: t, period_secs: RATE_PERIOD_SECS, refilled_at: 0 }
    }

    /// Changes the cap, keeping no more tokens than it.
    pub fn set_cap(&mut self, cap: u64)
        ensures
            final(self).cap == cap,
            final(self).tokens == if old(self).tokens <= cap { old(self).tokens } else { cap },
            final(self).period_secs == old(self).period_secs,
            final(self).refilled_at == old(self).refilled_at,
    {
        self.cap = cap;
        if self.tokens > cap {
            self.tokens = cap;
        }
    }

    /// Changes the period.
    pub fn set_period(&mut self, period_secs: u64)
        ensures
            *final(self) == (RateLimit { period_secs, ..*old(self) }),
    {
        self.period_secs = period_secs;
    }

    /// The rate class this bucket matches, if any.
    pub fn get_current_rate_class(&self) -> (r: Option<RateClass>)
        ensures
            r == class_of(self.cap, self.period_secs),
    {
        if self.period_secs != RATE_PERIOD_SECS {
            None
        } else if self.cap == 20 {
            Some(RateClass::Regular)
        } else if self.cap == 100 {
            Some(RateClass::Moderator)
        } else if self.cap == 50 {
            Some(RateClass::Known)
        } else if self.cap == 7500 {
            Some(RateClass::Verified)
        } else {
            None
        }
    }

    /// Takes `n` tokens at `now` (in milliseconds), refilling the bucket first when a period
    /// has passed; gives the tokens left, or how long to wait.
    pub fn consume(&mut self, n: u64, now: u64) -> (r: Result<u64, u64>)
        ensures
            (r, *final(self)) == spec_consume(*old(self), n, now),
    {
        let period: u64 = match self.period_secs.checked_mul(1000) {
            Some(p) => p,
            None => u64::MAX,
        };
        if now >= self.refilled_at && now - self.refilled_at >= period {
            self.tokens = self.cap;
            self.refilled_at = now;
        }
        if self.tokens >= n {
            self.tokens = self.tokens - n;
            Ok(self.tokens)
        } else {
            let since = if now >= self.refilled_at { now - self.refilled_at } else { 0 };
            let wait = if period > since { period - since } else { 0 };
            Err(wait)
        }
    }
}

impl Default for RateLimit {
    fn default() -> (r: Self)
        ensures
            r == spec_from_class(RateClass::Regular),
    {
        RateLimit::from_class(RateClass::Regular)
    }
}

} // verus!

verus! {

/// The rate-limit status of a channel.
#[derive(Copy, Clone, Debug, PartialEq, Eq, Structural)]
pub enum RateStatus {
    /// Twitch said we are sending too fast
    Limited,
    /// The channel is in slow mode, with this many seconds between messages
    SlowMode(u64),
    /// No restriction beyond the rate class
    Normal,
}

/// Messages waiting for their turn under a rate limit.
pub struct RateLimitQueue<T> {
    queue: VecDeque<T>,
    rate_limit: RateLimit,
}

/// What enqueueing `msg` at `now` does to the waiting messages `q` under the bucket `l`: the
/// messages to send now, the messages left waiting, and the bucket afterwards. When a token
/// is free and nothing waits, `msg` goes at once; when tokens are free and messages wait,
/// as many as there are tokens go (oldest first) and `msg` waits behind the rest; without a
/// token, `msg` waits.
pub open spec fn spec_enqueue<T>(q: Seq<T>, l: RateLimit, msg: T, now: u64) -> (Seq<T>, Seq<T>, RateLimit) {
    let (res, l2) = spec_consume(l, 1, now);
    match res {
        Ok(t) => if q.len() == 0 {
            (seq![msg], q, l2)
        } else {
            let m = if t < q.len() { t as int } else { q.len() as int };
            (q.take(m), q.skip(m).push(msg), l2)
        },
        Err(_) => (Seq::empty(), q.push(msg), l2),
    }
}

impl<T> RateLimitQueue<T> {
    /// The waiting messages, oldest first.
    pub closed spec fn spec_queue(self) -> Seq<T> {
        self.queue@
    }

    /// The bucket.
    pub closed spec fn spec_rate_limit(self) -> RateLimit {
        self.rate_limit
    }

    /// An empty queue under `rate_limit`.
    pub fn new(rate_limit: RateLimit) -> (r: Self)
        ensures
            r.spec_queue() == Seq::<T>::empty(),
            r.spec_rate_limit() == rate_limit,
    {
        RateLimitQueue { queue: VecDeque::new(), rate_limit }
    }

    /// Enqueues `msg` at `now` (in milliseconds), returning the messages to send now, in order.
    pub fn enqueue(&mut self, msg: T, now: u64) -> (r: Vec<T>)
        ensures
            (r@, final(self).spec_queue(), final(self).spec_rate_limit()) == spec_enqueue(
                old(self).spec_queue(),
                old(self).spec_rate_limit(),
                msg,
                now,
            ),
    {
        let ghost q = self.queue@;
        let res = self.rate_limit.consume(1, now);
        let ghost l2 = self.rate_limit;
        match res {
            Ok(tokens) => {
                if self.queue.len() == 0 {
                    let mut out: Vec<T> = Vec::new();
                    out.push(msg);
                    return out;
                }
                let max: usize = if (tokens as u128) < (self.queue.len() as u128) {
                    tokens as usize
                } else {
                    self.queue.len()
                };
                let mut out: Vec<T> = Vec::new();
                let mut i: usize = 0;
                while i < max
                    invariant
                        i <= max <= q.len(),
                        out@ == q.take(i as int),
                        self.queue@ == q.skip(i as int),
                        self.rate_limit == l2,
                    decreases max - i,
                {
                    let m = self.queue.pop_front();
                    match m {
                        Some(m) => {
                            out.push(m);
                        },
                        None => {},
                    }
                    assert(out@ =~= q.take(i + 1));
                    assert(self.queue@ =~= q.skip(i + 1));
                    i = i + 1;
                }
                assert(max == (if tokens < q.len() { tokens as int } else { q.len() as int }));
                self.queue.push_back(msg);
                out
            },
            Err(_) => {
                self.queue.push_back(msg);
                Vec::new()
            },
        }
    }
}

} // verus!

verus! {

/// The bucket `l` with its cap lowered (or raised) to `cap`, keeping no more tokens than that.
pub open spec fn capped(l: RateLimit, cap: u64) -> RateLimit {
    RateLimit { cap, tokens: if l.tokens <= cap { l.tokens } else { cap }, ..l }
}

/// The class remembered before a restriction: the one already remembered, else the class
/// the bucket `l` matches (or `Regular`).
pub open spec fn remembered(previous: Option<RateClass>, l: RateLimit) -> Option<RateClass> {
    match previous {
        Some(c) => Some(c),
        None => Some(
            match class_of(l.cap, l.period_secs) {
                Some(c) => c,
                None => RateClass::Regular,
            },
        ),
    }
}

/// What a change of status does to the bucket `l` and the remembered class, given the
/// status the channel has when the change is made: while limited, the cap drops to 1; in
/// slow mode, the cap drops to 1 and the period becomes the slow-mode delay; otherwise the
/// bucket of the remembered class (or `Regular`) comes back and nothing stays remembered.
pub open spec fn status_effect(current: RateStatus, l: RateLimit, previous: Option<RateClass>) -> (RateLimit, Option<RateClass>) {
    match current {
        RateStatus::Limited => (capped(l, 1), remembered(previous, l)),
        RateStatus::SlowMode(d) => (RateLimit { period_secs: d, ..capped(l, 1) }, remembered(previous, l)),
        RateStatus::Normal => (
            spec_from_class(
                match previous {
                    Some(c) => c,
                    None => RateClass::Regular,
                },
            ),
            None,
        ),
    }
}

/// The rate limiting of one channel.
pub struct Channel {
    status: RateStatus,
    queue: RateLimitQueue<Vec<u8>>,
    previous: Option<RateClass>,
}

impl Channel {
    /// The channel's status.
    pub closed spec fn spec_status(self) -> RateStatus {
        self.status
    }

    /// The channel's bucket.
    pub closed spec fn spec_rate_limit(self) -> RateLimit {
        self.queue.rate_limit
    }

    /// The messages waiting, oldest first.
    pub closed spec fn spec_queue(self) -> Seq<Vec<u8>> {
        self.queue.queue@
    }

    /// The class to go back to once restrictions end.
    pub closed spec fn spec_previous(self) -> Option<RateClass> {
        self.previous
    }

    /// A channel with no restriction, no waiting messages, and the bucket `rate_limit`.
    pub fn new(rate_limit: RateLimit) -> (r: Self)
        ensures
            r.spec_status() == RateStatus::Normal,
            r.spec_rate_limit() == rate_limit,
            r.spec_queue() == Seq::<Vec<u8>>::empty(),
            r.spec_previous() == None::<RateClass>,
    {
        Channel { status: RateStatus::Normal, queue: RateLimitQueue::new(rate_limit), previous: None }
    }

    /// Replaces the bucket with a full one of `rate_class`.
    ///
    /// This resets the rate limiter, which users can 'abuse' (i.e. get banned by Twitch).
    pub fn change_rate_class(&mut self, rate_class: RateClass)
        ensures
            final(self).spec_rate_limit() == spec_from_class(rate_class),
            final(self).spec_status() == old(self).spec_status(),
            final(self).spec_queue() == old(self).spec_queue(),
            final(self).spec_previous() == old(self).spec_previous(),
    {
        self.queue.rate_limit = RateLimit::from_class(rate_class);
    }

    /// Records the new `status`, returning the one it replaces; the bucket changes as
    /// [`status_effect`] says for the status the channel had.
    pub fn set_status(&mut self, status: RateStatus) -> (r: RateStatus)
        ensures
            r == old(self).spec_status(),
            final(self).spec_status() == status,
            (final(self).spec_rate_limit(), final(self).spec_previous()) == status_effect(
                old(self).spec_status(),
                old(self).spec_rate_limit(),
                old(self).spec_previous(),
            ),
            final(self).spec_queue() == old(self).spec_queue(),
    {
        match self.status {
            RateStatus::Limited => {
                if self.previous.is_none() {
                    let class = match self.queue.rate_limit.get_current_rate_class() {
                        Some(c) => c,
                        None => RateClass::Regular,
                    };
                    self.previous = Some(class);
                }
                self.queue.rate_limit.set_cap(1);
            },
            RateStatus::SlowMode(dur) => {
                if self.previous.is_none() {
                    let class = match self.queue.rate_limit.get_current_rate_class() {
                        Some(c) => c,
                        None => RateClass::Regular,
                    };
                    self.previous = Some(class);
                }
                self.queue.rate_limit.set_cap(1);
                self.queue.rate_limit.set_period(dur);
            },
            RateStatus::Normal => {
                let class = match self.previous {
                    Some(c) => c,
                    None => RateClass::Regular,
                };
                self.previous = None;
                self.change_rate_class(class);
            },
        }
        let old_status = self.status;
        self.status = status;
        old_status
    }

    /// Enqueues `data` at `now` under this channel's bucket, returning what to send now.
    pub fn enqueue(&mut self, data: Vec<u8>, now: u64) -> (r: Vec<Vec<u8>>)
        ensures
            (r@, final(self).spec_queue(), final(self).spec_rate_limit()) == spec_enqueue(
                old(self).spec_queue(),
                old(self).spec_rate_limit(),
                data,
                now,
            ),
            final(self).spec_status() == old(self).spec_status(),
            final(self).spec_previous() == old(self).spec_previous(),
    {
        self.queue.enqueue(data, now)
    }
}

} // verus!

verus! {

/// The rate limiting of every channel we are on, and of everything else.
pub struct RateLimitedChannels {
    map: Vec<(String, Channel)>,
    global: RateLimitQueue<Vec<u8>>,
}

/// The position of the channel named `name` among `names`, if it is there.
pub open spec fn position_of(names: Seq<Seq<char>>, name: Seq<char>) -> Option<int> {
    if exists|i: int| 0 <= i < names.len() && names[i] == name {
        Some(choose|i: int| 0 <= i < names.len() && names[i] == name)
    } else {
        None
    }
}

impl RateLimitedChannels {
    /// The names of the channels, in the order they were added.
    pub closed spec fn spec_names(self) -> Seq<Seq<char>> {
        self.map@.map_values(|e: (String, Channel)| e.0@)
    }

    /// The channels, in the same order.
    pub closed spec fn spec_channels(self) -> Seq<Channel> {
        self.map@.map_values(|e: (String, Channel)| e.1)
    }

    /// The queue for messages that go to no particular channel.
    pub closed spec fn spec_global(self) -> RateLimitQueue<Vec<u8>> {
        self.global
    }

    /// Each channel appears once.
    pub open spec fn wf(self) -> bool {
        &&& self.spec_names().len() == self.spec_channels().len()
        &&& forall|i: int, j: int|
            0 <= i < j < self.spec_names().len() ==> self.spec_names()[i] != self.spec_names()[j]
    }

    /// No channels, and a global queue under `global_rate`.
    pub fn new(global_rate: RateLimit) -> (r: Self)
        ensures
            r.wf(),
            r.spec_names() == Seq::<Seq<char>>::empty(),
            r.spec_global().spec_rate_limit() == global_rate,
            r.spec_global().spec_queue() == Seq::<Vec<u8>>::empty(),
    {
        let r = RateLimitedChannels { map: Vec::new(), global: RateLimitQueue::new(global_rate) };
        assert(r.spec_names() =~= Seq::<Seq<char>>::empty());
        r
    }

    /// Replaces the global bucket with a full one of `rate_class`.
    pub fn set_global_rate_limit(&mut self, rate_class: RateClass)
        ensures
            final(self).spec_global().spec_rate_limit() == spec_from_class(rate_class),
            final(self).spec_global().spec_queue() == old(self).spec_global().spec_queue(),
            final(self).spec_names() == old(self).spec_names(),
            final(self).spec_channels() == old(self).spec_channels(),
    {
        self.global.rate_limit = RateLimit::from_class(rate_class);
    }

    /// The position of the channel named `channel`, if we are on it.
    fn find(&self, channel: &str) -> (r: Option<usize>)
        requires
            self.wf(),
        ensures
            r matches Some(i) ==> position_of(self.spec_names(), channel@) == Some(i as int) && i
                < self.spec_names().len(),
            r is None ==> position_of(self.spec_names(), channel@) is None,
    {
        let ghost names = self.spec_names();
        let mut i: usize = 0;
        while i < self.map.len()
            invariant
                i <= self.map@.len(),
                names == self.spec_names(),
                names.len() == self.map@.len(),
                self.wf(),
                forall|k: int| 0 <= k < i ==> names[k] != channel@,
            decreases self.map@.len() - i,
        {
            assert(names[i as int] == self.map@[i as int].0@);
            if crate::text::str_eq(self.map[i].0.as_str(), channel) {
                proof {
                    let j = choose|j: int| 0 <= j < names.len() && names[j] == channel@;
                    assert(names[i as int] == channel@);
                    if j < i {
                        assert(names[j] != names[i as int]);
                    } else if j > i {
                        assert(names[i as int] != names[j]);
                    }
                }
                return Some(i);
            }
            i = i + 1;
        }
        None
    }

    /// Whether we track the channel named `channel`.
    pub fn has_channel(&self, channel: &str) -> (r: bool)
        requires
            self.wf(),
        ensures
            r == self.spec_names().contains(channel@),
    {
        let r = self.find(channel);
        proof {
            if self.spec_names().contains(channel@) {
                let k = choose|k: int| 0 <= k < self.spec_names().len() && self.spec_names()[k] == channel@;
                assert(self.spec_names()[k] == channel@);
            }
        }
        r.is_some()
    }
}


/// `new` is `old` after its status was set to `status`.
pub open spec fn status_set(old: Channel, new: Channel, status: RateStatus) -> bool {
    &&& new.spec_status() == status
    &&& (new.spec_rate_limit(), new.spec_previous()) == status_effect(
        old.spec_status(),
        old.spec_rate_limit(),
        old.spec_previous(),
    )
    &&& new.spec_queue() == old.spec_queue()
}

/// `new` is `old` after the status of the channel named `channel` was set to `status`; nothing
/// changes when there is no such channel.
pub open spec fn status_updated(old: RateLimitedChannels, new: RateLimitedChannels, channel: Seq<char>, status: RateStatus) -> bool {
    &&& new.wf()
    &&& new.spec_names() == old.spec_names()
    &&& new.spec_global() == old.spec_global()
    &&& match position_of(old.spec_names(), channel) {
        Some(p) => {
            &&& status_set(old.spec_channels()[p], new.spec_channels()[p], status)
            &&& forall|k: int| 0 <= k < old.spec_channels().len() && k != p ==> new.spec_channels()[k]
                == old.spec_channels()[k]
            &&& new.spec_channels().len() == old.spec_channels().len()
        },
        None => new.spec_channels() == old.spec_channels(),
    }
}

impl RateLimitedChannels {
    /// Sets the status of the channel named `channel`, if we are on it.
    fn set_status_of(&mut self, channel: &str, status: RateStatus)
        requires
            old(self).wf(),
        ensures
            status_updated(*old(self), *final(self), channel@, status),
    {
        match self.find(channel) {
            Some(i) => {
                let ghost m0 = self.map@;
                self.map[i].1.set_status(status);
                assert(self.map@.len() == m0.len());
                assert(self.map@[i as int].0 == m0[i as int].0);
                assert(status_set(m0[i as int].1, self.map@[i as int].1, status));
                assert(forall|k: int| 0 <= k < m0.len() && k != i ==> self.map@[k] == m0[k]);
                assert(self.spec_channels()[i as int] == self.map@[i as int].1);
                assert(old(self).spec_channels()[i as int] == m0[i as int].1);
                assert forall|k: int| 0 <= k < old(self).spec_channels().len() && k != i implies self.spec_channels()[k]
                    == old(self).spec_channels()[k] by {
                    assert(self.map@[k] == m0[k]);
                }
                assert(self.spec_names() =~= old(self).spec_names()) by {
                    assert forall|k: int| 0 <= k < self.map@.len() implies self.map@[k].0 == m0[k].0 by {}
                }
            },
            None => {},
        }
    }

    /// Puts the channel named `channel` in slow mode for 30 seconds, if we are on it.
    pub fn enable_slow(&mut self, channel: &str)
        requires
            old(self).wf(),
        ensures
            status_updated(*old(self), *final(self), channel@, RateStatus::SlowMode(30)),
    {
        self.set_status_of(channel, RateStatus::SlowMode(30));
    }

    /// Ends slow mode (and any other restriction) on the channel named `channel`, if we are on it.
    pub fn disable_slow(&mut self, channel: &str)
        requires
            old(self).wf(),
        ensures
            status_updated(*old(self), *final(self), channel@, RateStatus::Normal),
    {
        self.set_status_of(channel, RateStatus::Normal);
    }

    /// Marks the channel named `channel` as rate limited by Twitch, if we are on it.
    pub fn rate_limited_on_channel(&mut self, channel: &str)
        requires
            old(self).wf(),
        ensures
            status_updated(*old(self), *final(self), channel@, RateStatus::Limited),
    {
        self.set_status_of(channel, RateStatus::Limited);
    }

    /// Puts the channel named `channel` in slow mode for `dur` seconds, if we are on it.
    pub fn set_slow_duration(&mut self, channel: &str, dur: u64)
        requires
            old(self).wf(),
        ensures
            status_updated(*old(self), *final(self), channel@, RateStatus::SlowMode(dur)),
    {
        self.set_status_of(channel, RateStatus::SlowMode(dur));
    }

    /// Starts tracking the channel named `channel`, with the bucket `rate_limit`; a channel
    /// already tracked keeps its state.
    pub fn add_channel(&mut self, channel: &str, rate_limit: RateLimit)
        requires
            old(self).wf(),
        ensures
            channel_added(*old(self), *final(self), channel@, rate_limit),

    {
        if self.has_channel(channel) {
            return;
        }
        let ghost m0 = self.map@;
        self.map.push((channel.to_owned(), Channel::new(rate_limit)));
        assert(self.spec_names() =~= old(self).spec_names().push(channel@));
        assert(self.spec_channels().drop_last() =~= old(self).spec_channels());
        assert forall|i: int, j: int| 0 <= i < j < self.spec_names().len() implies self.spec_names()[i]
            != self.spec_names()[j] by {
            if j == self.spec_names().len() - 1 {
                assert(old(self).spec_names()[i] == self.spec_names()[i]);
            }
        }
    }

    /// Stops tracking the channel named `channel`, dropping any messages waiting for it.
    pub fn remove_channel(&mut self, channel: &str)
        requires
            old(self).wf(),
        ensures
            channel_removed(*old(self), *final(self), channel@),

    {
        match self.find(channel) {
            Some(i) => {
                let ghost m0 = self.map@;
                let _ = self.map.remove(i);
                assert(self.spec_names() =~= old(self).spec_names().remove(i as int));
                assert(self.spec_channels() =~= old(self).spec_channels().remove(i as int));
                assert forall|a: int, b: int| 0 <= a < b < self.spec_names().len() implies self.spec_names()[a]
                    != self.spec_names()[b] by {
                    let a0 = if a < i { a } else { a + 1 };
                    let b0 = if b < i { b } else { b + 1 };
                    assert(self.spec_names()[a] == old(self).spec_names()[a0]);
                    assert(self.spec_names()[b] == old(self).spec_names()[b0]);
                }
                assert(!self.spec_names().contains(channel@)) by {
                    if self.spec_names().contains(channel@) {
                        let k = choose|k: int| 0 <= k < self.spec_names().len() && self.spec_names()[k] == channel@;
                        let k0 = if k < i { k } else { k + 1 };
                        assert(old(self).spec_names()[k0] == channel@);
                        assert(old(self).spec_names()[i as int] == channel@);
                    }
                }
            },
            None => {
                assert(!self.spec_names().contains(channel@)) by {
                    if self.spec_names().contains(channel@) {
                        let k = choose|k: int| 0 <= k < self.spec_names().len() && self.spec_names()[k] == channel@;
                        assert(self.spec_names()[k] == channel@);
                    }
                }
            },
        }
    }
}

impl RateLimitedChannels {
    /// Enqueues `data` for the channel named `channel` at `now`, returning the messages to send
    /// now; `None` when we are not on that channel.
    pub fn enqueue_for(&mut self, channel: &str, data: Vec<u8>, now: u64) -> (r: Option<Vec<Vec<u8>>>)
        requires
            old(self).wf(),
        ensures
            enqueued_for(*old(self), *final(self), channel@, data, now, r),

    {
        match self.find(channel) {
            Some(i) => {
                let ghost m0 = self.map@;
                let out = self.map[i].1.enqueue(data, now);
                assert(self.map@[i as int].0 == m0[i as int].0);
                assert(forall|k: int| 0 <= k < m0.len() && k != i ==> self.map@[k] == m0[k]);
                assert(self.spec_channels()[i as int] == self.map@[i as int].1);
                assert(old(self).spec_channels()[i as int] == m0[i as int].1);
                assert forall|k: int| 0 <= k < old(self).spec_channels().len() && k != i implies self.spec_channels()[k]
                    == old(self).spec_channels()[k] by {
                    assert(self.map@[k] == m0[k]);
                }
                assert(self.spec_names() =~= old(self).spec_names()) by {
                    assert forall|k: int| 0 <= k < self.map@.len() implies self.map@[k].0 == m0[k].0 by {}
                }
                Some(out)
            },
            None => None,
        }
    }

    /// Enqueues `data` on the global queue at `now`, returning the messages to send now.
    pub fn global_enqueue(&mut self, data: Vec<u8>, now: u64) -> (r: Vec<Vec<u8>>)
        ensures
            enqueued_global(*old(self), *final(self), data, now, r),

    {
        self.global.enqueue(data, now)
    }

    /// Gives the channel named `channel` a full bucket of `rate_class`; `false` when we are not
    /// on that channel.
    pub fn change_rate_class_for(&mut self, channel: &str, rate_class: RateClass) -> (r: bool)
        requires
            old(self).wf(),
        ensures
            final(self).wf(),
            final(self).spec_names() == old(self).spec_names(),
            final(self).spec_global() == old(self).spec_global(),
            match position_of(old(self).spec_names(), channel@) {
                Some(p) => {
                    let c0 = old(self).spec_channels()[p];
                    let c1 = final(self).spec_channels()[p];
                    &&& r
                    &&& c1.spec_rate_limit() == spec_from_class(rate_class)
                    &&& c1.spec_status() == c0.spec_status()
                    &&& c1.spec_queue() == c0.spec_queue()
                    &&& c1.spec_previous() == c0.spec_previous()
                    &&& forall|k: int| 0 <= k < old(self).spec_channels().len() && k != p ==> final(self).spec_channels()[k]
                        == old(self).spec_channels()[k]
                    &&& final(self).spec_channels().len() == old(self).spec_channels().len()
                },
                None => !r && final(self).spec_channels() == old(self).spec_channels(),
            },
    {
        match self.find(channel) {
            Some(i) => {
                let ghost m0 = self.map@;
                self.map[i].1.change_rate_class(rate_class);
                assert(self.map@[i as int].0 == m0[i as int].0);
                assert(forall|k: int| 0 <= k < m0.len() && k != i ==> self.map@[k] == m0[k]);
                assert(self.spec_channels()[i as int] == self.map@[i as int].1);
                assert(old(self).spec_channels()[i as int] == m0[i as int].1);
                assert forall|k: int| 0 <= k < old(self).spec_channels().len() && k != i implies self.spec_channels()[k]
                    == old(self).spec_channels()[k] by {
                    assert(self.map@[k] == m0[k]);
                }
                assert(self.spec_names() =~= old(self).spec_names()) by {
                    assert forall|k: int| 0 <= k < self.map@.len() implies self.map@[k].0 == m0[k].0 by {}
                }
                true
            },
            None => false,
        }
    }

    /// The channel named `channel`, if we are on it.
    pub fn get_channel(&self, channel: &str) -> (r: Option<&Channel>)
        requires
            self.wf(),
        ensures
            match position_of(self.spec_names(), channel@) {
                Some(p) => r matches Some(c) && *c == self.spec_channels()[p],
                None => r is None,
            },
    {
        match self.find(channel) {
            Some(i) => {
                assert(self.spec_channels()[i as int] == self.map@[i as int].1);
                Some(&self.map[i].1)
            },
            None => None,
        }
    }
}
} // verus!

verus! {

/// Enqueueing loses no message and keeps their order: what is sent now, followed by what is
/// left waiting, is the waiting messages followed by the new one.
pub proof fn enqueue_keeps_every_message_in_order<T>(q: Seq<T>, l: RateLimit, msg: T, now: u64)
    ensures
        spec_enqueue(q, l, msg, now).0 + spec_enqueue(q, l, msg, now).1 == q.push(msg),
{
    let (res, _) = spec_consume(l, 1, now);
    match res {
        Ok(t) => {
            if q.len() == 0 {
                assert(seq![msg] + q =~= q.push(msg));
            } else {
                let m = if t < q.len() { t as int } else { q.len() as int };
                assert(q.take(m) + q.skip(m).push(msg) =~= q.push(msg));
            }
        },
        Err(_) => {
            assert(Seq::<T>::empty() + q.push(msg) =~= q.push(msg));
        },
    }
}

/// A bucket never holds more tokens than its cap after tokens are taken from it.
pub proof fn consume_keeps_tokens_within_cap(l: RateLimit, n: u64, now: u64)
    requires
        l.wf(),
    ensures
        spec_consume(l, n, now).1.wf(),
        spec_consume(l, n, now).1.cap == l.cap,
        spec_consume(l, n, now).0 matches Ok(t) ==> t <= l.cap,
{
}

/// While restricted (limited, or in slow mode), a channel sends at most one message per
/// period, and it remembers the class it had before.
pub proof fn restriction_caps_at_one(current: RateStatus, l: RateLimit, previous: Option<RateClass>)
    requires
        current != RateStatus::Normal,
    ensures
        status_effect(current, l, previous).0.cap == 1,
        status_effect(current, l, previous).0.tokens <= 1,
        status_effect(current, l, previous).1 == remembered(previous, l),
        status_effect(current, l, previous).1 is Some,
{
}

/// The class remembered when a restriction starts comes back, as a full bucket, with the
/// first status change made once the channel is back to normal; after that nothing is
/// remembered.
pub proof fn normal_restores_remembered_class(current: RateStatus, l: RateLimit, previous: Option<RateClass>, later: RateLimit)
    requires
        current != RateStatus::Normal,
    ensures
        ({
            let kept = status_effect(current, l, previous).1;
            &&& kept matches Some(c) && status_effect(RateStatus::Normal, later, kept) == (spec_from_class(c), None::<RateClass>)
            &&& previous matches Some(c) ==> kept == Some(c)
            &&& previous is None ==> kept == Some(
                match class_of(l.cap, l.period_secs) {
                    Some(c) => c,
                    None => RateClass::Regular,
                },
            )
        }),
{
}

/// Restoring a class gives its full bucket, which that class is recognised in again.
pub proof fn from_class_round_trips(c: RateClass)
    ensures
        class_of(spec_from_class(c).cap, spec_from_class(c).period_secs) == Some(c),
        spec_from_class(c).wf(),
{
}

/// `new` is `old` after the channel named `channel` was added with the bucket `rate_limit`;
/// a channel already there keeps its state.
pub open spec fn channel_added(old: RateLimitedChannels, new: RateLimitedChannels, channel: Seq<char>, rate_limit: RateLimit) -> bool {
    &&& new.wf()
    &&& new.spec_global() == old.spec_global()
    &&& old.spec_names().contains(channel) ==> new.spec_names() == old.spec_names() && new.spec_channels()
        == old.spec_channels()
    &&& !old.spec_names().contains(channel) ==> {
        &&& new.spec_names() == old.spec_names().push(channel)
        &&& new.spec_channels().drop_last() == old.spec_channels()
        &&& new.spec_channels().last().spec_status() == RateStatus::Normal
        &&& new.spec_channels().last().spec_rate_limit() == rate_limit
        &&& new.spec_channels().last().spec_queue() == Seq::<Vec<u8>>::empty()
        &&& new.spec_channels().last().spec_previous() == None::<RateClass>
    }
}

/// `new` is `old` without the channel named `channel`.
pub open spec fn channel_removed(old: RateLimitedChannels, new: RateLimitedChannels, channel: Seq<char>) -> bool {
    &&& new.wf()
    &&& new.spec_global() == old.spec_global()
    &&& match position_of(old.spec_names(), channel) {
        Some(p) => new.spec_names() == old.spec_names().remove(p) && new.spec_channels()
            == old.spec_channels().remove(p),
        None => new.spec_names() == old.spec_names() && new.spec_channels() == old.spec_channels(),
    }
    &&& !new.spec_names().contains(channel)
}

/// `new` is `old` after `data` was enqueued at `now` for the channel named `channel`, and `r`
/// holds what to send now (`None` when there is no such channel).
pub open spec fn enqueued_for(old: RateLimitedChannels, new: RateLimitedChannels, channel: Seq<char>, data: Vec<u8>, now: u64, r: Option<Vec<Vec<u8>>>) -> bool {
    &&& new.wf()
    &&& new.spec_names() == old.spec_names()
    &&& new.spec_global() == old.spec_global()
    &&& match position_of(old.spec_names(), channel) {
        Some(p) => {
            let c0 = old.spec_channels()[p];
            let c1 = new.spec_channels()[p];
            &&& r matches Some(v) && (v@, c1.spec_queue(), c1.spec_rate_limit()) == spec_enqueue(
                c0.spec_queue(),
                c0.spec_rate_limit(),
                data,
                now,
            )
            &&& c1.spec_status() == c0.spec_status()
            &&& c1.spec_previous() == c0.spec_previous()
            &&& forall|k: int| 0 <= k < old.spec_channels().len() && k != p ==> new.spec_channels()[k]
                == old.spec_channels()[k]
            &&& new.spec_channels().len() == old.spec_channels().len()
        },
        None => r is None && new.spec_channels() == old.spec_channels(),
    }
}

/// `new` is `old` after `data` was enqueued at `now` on the global queue, and `r` holds what to
/// send now.
pub open spec fn enqueued_global(old: RateLimitedChannels, new: RateLimitedChannels, data: Vec<u8>, now: u64, r: Vec<Vec<u8>>) -> bool {
    &&& (r@, new.spec_global().spec_queue(), new.spec_global().spec_rate_limit()) == spec_enqueue(
        old.spec_global().spec_queue(),
        old.spec_global().spec_rate_limit(),
        data,
        now,
    )
    &&& new.spec_names() == old.spec_names()
    &&& new.spec_channels() == old.spec_channels()
}

} // verus!
