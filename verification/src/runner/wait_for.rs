//! Waiting for particular messages while the connection starts: which were asked for, which
//! have arrived, and which capabilities the server acknowledged.
use vstd::prelude::*;
use vstd::string::StringSliceAdditionalSpecFns;
use crate::irc::message::IrcMessage;
use crate::text::bytes_eq;
use crate::runner::runner_error::RunnerError;

verus! {

broadcast use vstd::string::group_string_axioms;

/// A capability that can be requested from Twitch.
#[derive(Copy, Clone, Debug, PartialEq, Eq, Structural, Hash)]
pub enum Capability {
    /// `twitch.tv/membership`: join and part notices
    Membership,
    /// `twitch.tv/tags`: tags on messages
    Tags,
    /// `twitch.tv/commands`: Twitch's own commands
    Commands,
}

impl Capability {
    /// The name of this capability.
    pub open spec fn spec_name(self) -> Seq<u8> {
        match self {
            Capability::Membership => "twitch.tv/membership".spec_bytes(),
            Capability::Tags => "twitch.tv/tags".spec_bytes(),
            Capability::Commands => "twitch.tv/commands".spec_bytes(),
        }
    }

    /// The name of this capability.
    pub fn encode_as_str(&self) -> (r: &'static str)
        ensures
            r.spec_bytes() == self.spec_name(),
    {
        match self {
            Capability::Membership => "twitch.tv/membership",
            Capability::Tags => "twitch.tv/tags",
            Capability::Commands => "twitch.tv/commands",
        }
    }

    /// The capability named `s`, if any.
    pub fn maybe_from_str(s: &str) -> (r: Option<Capability>)
        ensures
            r == capability_named(s.spec_bytes()),
    {
        let b = s.as_bytes();
        if bytes_eq(b, "twitch.tv/membership".as_bytes()) {
            Some(Capability::Membership)
        } else if bytes_eq(b, "twitch.tv/tags".as_bytes()) {
            Some(Capability::Tags)
        } else if bytes_eq(b, "twitch.tv/commands".as_bytes()) {
            Some(Capability::Commands)
        } else {
            None
        }
    }
}

/// The capability named by the bytes `b`, if any.
pub open spec fn capability_named(b: Seq<u8>) -> Option<Capability> {
    if b == Capability::Membership.spec_name() {
        Some(Capability::Membership)
    } else if b == Capability::Tags.spec_name() {
        Some(Capability::Tags)
    } else if b == Capability::Commands.spec_name() {
        Some(Capability::Commands)
    } else {
        None
    }
}

/// Whether a message that was waited for can be had.
#[derive(Copy, Clone, Debug, PartialEq)]
pub enum CapsStatus<T> {
    /// It will never come: the connection is ready and this capability was not acknowledged
    RequiredCap(Capability),
    /// It came
    Seen(T),
    /// It has not come yet
    NotSeen,
}

} // verus!

verus! {

/// The keys of `entries`, as bytes.
pub open spec fn keys_of<V>(entries: Seq<(&'static str, V)>) -> Seq<Seq<u8>> {
    entries.map_values(|e: (&'static str, V)| e.0.spec_bytes())
}

/// No key appears twice.
pub open spec fn distinct_keys(keys: Seq<Seq<u8>>) -> bool {
    forall|i: int, j: int| 0 <= i < j < keys.len() ==> keys[i] != keys[j]
}

/// The position of `k` among `keys`, if it is there.
pub open spec fn index_of(keys: Seq<Seq<u8>>, k: Seq<u8>) -> Option<int> {
    if exists|i: int| 0 <= i < keys.len() && keys[i] == k {
        Some(choose|i: int| 0 <= i < keys.len() && keys[i] == k)
    } else {
        None
    }
}

/// The value stored under `k`, if any.
pub open spec fn value_of<V>(entries: Seq<(&'static str, V)>, k: Seq<u8>) -> Option<V> {
    match index_of(keys_of(entries), k) {
        Some(i) => Some(entries[i].1),
        None => None,
    }
}

proof fn lemma_index_of_unique(keys: Seq<Seq<u8>>, k: Seq<u8>, i: int)
    requires
        distinct_keys(keys),
        0 <= i < keys.len(),
        keys[i] == k,
    ensures
        index_of(keys, k) == Some(i),
{
    let j = choose|j: int| 0 <= j < keys.len() && keys[j] == k;
    if j < i {
        assert(keys[j] != keys[i]);
    } else if j > i {
        assert(keys[i] != keys[j]);
    }
}

proof fn lemma_index_of_absent(keys: Seq<Seq<u8>>, k: Seq<u8>)
    requires
        forall|i: int| 0 <= i < keys.len() ==> keys[i] != k,
    ensures
        index_of(keys, k) is None,
{
}

/// The position of the entry whose key is `key`.
fn find_key<V>(entries: &Vec<(&'static str, V)>, key: &[u8]) -> (r: Option<usize>)
    requires
        distinct_keys(keys_of(entries@)),
    ensures
        r matches Some(i) ==> i < entries@.len() && index_of(keys_of(entries@), key@) == Some(i as int),
        r is None ==> index_of(keys_of(entries@), key@) is None,
{
    let ghost keys = keys_of(entries@);
    let mut i: usize = 0;
    while i < entries.len()
        invariant
            i <= entries@.len(),
            keys == keys_of(entries@),
            keys.len() == entries@.len(),
            distinct_keys(keys),
            forall|k: int| 0 <= k < i ==> keys[k] != key@,
        decreases entries@.len() - i,
    {
        assert(keys[i as int] == entries@[i as int].0.spec_bytes());
        if bytes_eq(entries[i].0.as_bytes(), key) {
            proof {
                lemma_index_of_unique(keys, key@, i as int);
            }
            return Some(i);
        }
        i = i + 1;
    }
    None
}

proof fn lemma_remove_entry<V>(entries: Seq<(&'static str, V)>, j: int)
    requires
        distinct_keys(keys_of(entries)),
        0 <= j < entries.len(),
    ensures
        distinct_keys(keys_of(entries.remove(j))),
        value_of(entries.remove(j), keys_of(entries)[j]) is None,
        forall|k: Seq<u8>| k != keys_of(entries)[j] ==> value_of(entries.remove(j), k) == value_of(entries, k),
{
    let ks = keys_of(entries);
    let rs = entries.remove(j);
    let kr = keys_of(rs);
    assert(kr =~= ks.remove(j));
    assert forall|a: int, b: int| 0 <= a < b < kr.len() implies kr[a] != kr[b] by {
        let a0 = if a < j { a } else { a + 1 };
        let b0 = if b < j { b } else { b + 1 };
        assert(kr[a] == ks[a0]);
        assert(kr[b] == ks[b0]);
    }
    assert forall|a: int| 0 <= a < kr.len() implies kr[a] != ks[j] by {
        let a0 = if a < j { a } else { a + 1 };
        assert(kr[a] == ks[a0]);
    }
    lemma_index_of_absent(kr, ks[j]);
    assert forall|k: Seq<u8>| k != ks[j] implies value_of(rs, k) == value_of(entries, k) by {
        match index_of(ks, k) {
            Some(i) => {
                assert(ks[i] == k);
                let i1 = if i < j { i } else { i - 1 };
                assert(i != j);
                assert(kr[i1] == k);
                lemma_index_of_unique(kr, k, i1);
                assert(rs[i1] == entries[i]);
            },
            None => {
                assert forall|a: int| 0 <= a < kr.len() implies kr[a] != k by {
                    let a0 = if a < j { a } else { a + 1 };
                    assert(kr[a] == ks[a0]);
                }
                lemma_index_of_absent(kr, k);
            },
        }
    }
}

proof fn lemma_push_entry<V>(entries: Seq<(&'static str, V)>, e: (&'static str, V))
    requires
        distinct_keys(keys_of(entries)),
        index_of(keys_of(entries), e.0.spec_bytes()) is None,
    ensures
        distinct_keys(keys_of(entries.push(e))),
        value_of(entries.push(e), e.0.spec_bytes()) == Some(e.1),
        forall|k: Seq<u8>| k != e.0.spec_bytes() ==> value_of(entries.push(e), k) == value_of(entries, k),
{
    let ks = keys_of(entries);
    let ps = entries.push(e);
    let kp = keys_of(ps);
    assert(kp =~= ks.push(e.0.spec_bytes()));
    assert forall|a: int, b: int| 0 <= a < b < kp.len() implies kp[a] != kp[b] by {
        if b == kp.len() - 1 {
            assert(kp[a] == ks[a]);
            if ks[a] == e.0.spec_bytes() {
                assert(index_of(ks, e.0.spec_bytes()) is Some);
            }
        }
    }
    lemma_index_of_unique(kp, e.0.spec_bytes(), (kp.len() - 1) as int);
    assert forall|k: Seq<u8>| k != e.0.spec_bytes() implies value_of(ps, k) == value_of(entries, k) by {
        match index_of(ks, k) {
            Some(i) => {
                assert(ks[i] == k);
                assert(kp[i] == k);
                lemma_index_of_unique(kp, k, i);
            },
            None => {
                assert forall|a: int| 0 <= a < kp.len() implies kp[a] != k by {
                    if a < kp.len() - 1 {
                        assert(kp[a] == ks[a]);
                    }
                }
                lemma_index_of_absent(kp, k);
            },
        }
    }
}

proof fn lemma_set_entry<V>(entries: Seq<(&'static str, V)>, j: int, e: (&'static str, V))
    requires
        distinct_keys(keys_of(entries)),
        0 <= j < entries.len(),
        e.0.spec_bytes() == entries[j].0.spec_bytes(),
    ensures
        keys_of(entries.update(j, e)) == keys_of(entries),
        value_of(entries.update(j, e), e.0.spec_bytes()) == Some(e.1),
        forall|k: Seq<u8>| k != e.0.spec_bytes() ==> value_of(entries.update(j, e), k) == value_of(entries, k),
{
    let ks = keys_of(entries);
    let us = entries.update(j, e);
    assert(keys_of(us) =~= ks);
    lemma_index_of_unique(ks, e.0.spec_bytes(), j);
    assert forall|k: Seq<u8>| k != e.0.spec_bytes() implies value_of(us, k) == value_of(entries, k) by {
        if let Some(i) = index_of(ks, k) {
            assert(ks[i] == k);
            assert(i != j);
        }
    }
}

/// The messages being waited for, and what has arrived.
pub struct WaitFor {
    want: Vec<(&'static str, usize)>,
    queue: Vec<(&'static str, IrcMessage<'static>)>,
    /// Whether the connection is anonymous (it then cannot have capabilities)
    pub are_we_anonymous: bool,
    seen_ready: bool,
    seen_caps: Vec<Capability>,
}

/// `msg` acknowledges the capability `c`.
pub open spec fn acknowledges(msg: IrcMessage, c: Capability) -> bool {
    &&& msg.has_command(IrcMessage::CAP)
    &&& crate::messages::cap::is_ack(msg)
    &&& msg.spec_parts().data matches Some(d) && capability_named(d.bytes_of(msg.raw_bytes())) == Some(c)
}

impl WaitFor {
    /// How many waits there are for each command.
    pub closed spec fn spec_want(self) -> Seq<(&'static str, usize)> {
        self.want@
    }

    /// The last message of each command being waited for.
    pub closed spec fn spec_queue(self) -> Seq<(&'static str, IrcMessage<'static>)> {
        self.queue@
    }

    /// Whether the connection is anonymous.
    pub closed spec fn spec_anonymous(self) -> bool {
        self.are_we_anonymous
    }

    /// Whether the server said the connection is ready.
    pub closed spec fn spec_seen_ready(self) -> bool {
        self.seen_ready
    }

    /// Whether the server acknowledged the capability `c`.
    pub closed spec fn spec_has_cap(self, c: Capability) -> bool {
        self.seen_caps@.contains(c)
    }

    /// The capability that `required` names and that will never come: the connection is ready
    /// and it was not acknowledged.
    pub open spec fn missing_cap(self, required: Option<Capability>) -> Option<Capability> {
        match required {
            Some(c) => if self.spec_seen_ready() && !self.spec_has_cap(c) {
                Some(c)
            } else {
                None
            },
            None => None,
        }
    }

    /// Each command is listed once, among the waits and among the arrivals.
    pub open spec fn wf(self) -> bool {
        &&& distinct_keys(keys_of(self.spec_want()))
        &&& distinct_keys(keys_of(self.spec_queue()))
    }

    /// Whether the connection is anonymous.
    pub fn is_anonymous(&self) -> (r: bool)
        ensures
            r == self.spec_anonymous(),
    {
        self.are_we_anonymous
    }

    /// Nothing waited for, nothing seen.
    pub fn new(are_we_anonymous: bool) -> (r: Self)
        ensures
            r.wf(),
            r.spec_want() == Seq::<(&'static str, usize)>::empty(),
            r.spec_queue() == Seq::<(&'static str, IrcMessage<'static>)>::empty(),
            r.spec_anonymous() == are_we_anonymous,
            !r.spec_seen_ready(),
            forall|c: Capability| !r.spec_has_cap(c),
    {
        let r = WaitFor {
            want: Vec::new(),
            queue: Vec::new(),
            are_we_anonymous,
            seen_ready: false,
            seen_caps: Vec::new(),
        };
        assert(keys_of(r.want@) =~= Seq::<Seq<u8>>::empty());
        assert(keys_of(r.queue@) =~= Seq::<Seq<u8>>::empty());
        r
    }

    /// Asks to wait for one more message with the command `command`, which needs the
    /// capability `required` (named `name` in the error). An anonymous connection cannot
    /// wait for a message that needs a capability.
    pub fn register(&mut self, command: &'static str, required: Option<Capability>, name: &'static str) -> (r: Result<(), RunnerError>)
        requires
            old(self).wf(),
            value_of(old(self).spec_want(), command.spec_bytes()) matches Some(n) ==> n < usize::MAX,
        ensures
            final(self).wf(),
            final(self).spec_queue() == old(self).spec_queue(),
            final(self).spec_seen_ready() == old(self).spec_seen_ready(),
            forall|c: Capability| final(self).spec_has_cap(c) == old(self).spec_has_cap(c),
            final(self).spec_anonymous() == old(self).spec_anonymous(),
            if old(self).spec_anonymous() && required is Some {
                &&& r matches Err(RunnerError::RequiredCaps(c, n)) && required == Some(c) && n == name
                &&& final(self).spec_want() == old(self).spec_want()
            } else {
                &&& r is Ok
                &&& value_of(final(self).spec_want(), command.spec_bytes()) == Some(
                    match value_of(old(self).spec_want(), command.spec_bytes()) {
                        Some(n) => (n + 1) as usize,
                        None => 1usize,
                    },
                )
                &&& forall|k: Seq<u8>| k != command.spec_bytes() ==> value_of(final(self).spec_want(), k)
                    == value_of(old(self).spec_want(), k)
            },
    {
        if self.are_we_anonymous {
            match required {
                Some(c) => return Err(RunnerError::RequiredCaps(c, name)),
                None => {},
            }
        }
        let ghost w0 = self.want@;
        match find_key(&self.want, command.as_bytes()) {
            Some(i) => {
                let n = self.want[i].1;
                self.want.set(i, (self.want[i].0, n + 1));
                assert(keys_of(self.want@) =~= keys_of(w0));
                proof {
                    lemma_index_of_unique(keys_of(self.want@), command.spec_bytes(), i as int);
                    assert forall|k: Seq<u8>| k != command.spec_bytes() implies value_of(self.want@, k)
                        == value_of(w0, k) by {
                        if let Some(j) = index_of(keys_of(w0), k) {
                            assert(keys_of(w0)[j] == k);
                            assert(j != i);
                        }
                    }
                }
            },
            None => {
                self.want.push((command, 1));
                assert(keys_of(self.want@) =~= keys_of(w0).push(command.spec_bytes()));
                proof {
                    let ks = keys_of(self.want@);
                    assert forall|a: int, b: int| 0 <= a < b < ks.len() implies ks[a] != ks[b] by {
                        if b == ks.len() - 1 {
                            assert(ks[a] == keys_of(w0)[a]);
                            if ks[a] == command.spec_bytes() {
                                assert(index_of(keys_of(w0), command.spec_bytes()) is Some);
                            }
                        }
                    }
                    lemma_index_of_unique(ks, command.spec_bytes(), (ks.len() - 1) as int);
                    assert forall|k: Seq<u8>| k != command.spec_bytes() implies value_of(self.want@, k)
                        == value_of(w0, k) by {
                        match index_of(keys_of(w0), k) {
                            Some(j) => {
                                assert(keys_of(w0)[j] == k);
                                assert(ks[j] == k);
                                lemma_index_of_unique(ks, k, j);
                            },
                            None => {
                                assert forall|j: int| 0 <= j < ks.len() implies ks[j] != k by {
                                    if j < ks.len() - 1 {
                                        assert(ks[j] == keys_of(w0)[j]);
                                    }
                                }
                                lemma_index_of_absent(ks, k);
                            },
                        }
                    }
                }
            },
        }
        Ok(())
    }
}


/// `new` is `old` after recording what `msg` says: an acknowledged capability, that the
/// connection is ready, and the message itself when its command is being waited for.
pub open spec fn wait_for_added(old: WaitFor, new: WaitFor, msg: IrcMessage) -> bool {
    &&& new.wf()
    &&& new.spec_want() == old.spec_want()
    &&& new.spec_anonymous() == old.spec_anonymous()
    &&& new.spec_seen_ready() == (old.spec_seen_ready() || msg.has_command(IrcMessage::READY))
    &&& forall|c: Capability| new.spec_has_cap(c) == (old.spec_has_cap(c) || acknowledges(msg, c))
    &&& match value_of(old.spec_want(), msg.command_bytes()) {
        Some(_) => {
            &&& value_of(new.spec_queue(), msg.command_bytes()) matches Some(m) && m.raw_bytes()
                == msg.raw_bytes() && m.spec_parts() == msg.spec_parts()
            &&& forall|k: Seq<u8>| k != msg.command_bytes() ==> value_of(new.spec_queue(), k) == value_of(
                old.spec_queue(),
                k,
            )
        },
        None => new.spec_queue() == old.spec_queue(),
    }
}

/// `new` is `old` after checking for the message with the command `command`, which needs the
/// capability `required`, and `r` says what was found.
pub open spec fn wait_for_checked(old: WaitFor, new: WaitFor, command: Seq<u8>, required: Option<Capability>, r: CapsStatus<IrcMessage<'static>>) -> bool {
    &&& new.wf()
    &&& new.spec_anonymous() == old.spec_anonymous()
    &&& new.spec_seen_ready() == old.spec_seen_ready()
    &&& forall|c: Capability| new.spec_has_cap(c) == old.spec_has_cap(c)
    &&& match old.missing_cap(required) {
        Some(c) => {
            &&& r == CapsStatus::<IrcMessage<'static>>::RequiredCap(c)
            &&& new.spec_want() == old.spec_want()
            &&& new.spec_queue() == old.spec_queue()
        },
        None => match value_of(old.spec_queue(), command) {
            Some(m) => {
                &&& r == CapsStatus::Seen(m)
                &&& value_of(new.spec_queue(), command) is None
                &&& value_of(new.spec_want(), command) is None
                &&& forall|k: Seq<u8>| k != command ==> value_of(new.spec_queue(), k)
                    == value_of(old.spec_queue(), k) && value_of(new.spec_want(), k)
                    == value_of(old.spec_want(), k)
            },
            None => {
                &&& r == CapsStatus::<IrcMessage<'static>>::NotSeen
                &&& new.spec_want() == old.spec_want()
                &&& new.spec_queue() == old.spec_queue()
            },
        },
    }
}

impl WaitFor {
    /// Records what `msg` says: an acknowledged capability, that the connection is ready, and
    /// the message itself when its command is being waited for (replacing an earlier one).
    pub fn maybe_add(&mut self, msg: &IrcMessage)
        requires
            old(self).wf(),
        ensures
            wait_for_added(*old(self), *final(self), *msg),
    {
        let mut acked: Option<Capability> = None;
        if msg.is_command(IrcMessage::CAP) {
            match msg.expect_arg(1) {
                Ok(a) => {
                    if bytes_eq(a.as_bytes(), "ACK".as_bytes()) {
                        match msg.expect_data() {
                            Ok(d) => {
                                acked = Capability::maybe_from_str(d);
                            },
                            Err(_) => {},
                        }
                    }
                },
                Err(_) => {},
            }
        }
        proof {
            assert forall|c: Capability| acknowledges(*msg, c) == (acked == Some(c)) by {}
        }
        match acked {
            Some(c) => {
                let mut found = false;
                let mut i: usize = 0;
                while i < self.seen_caps.len()
                    invariant
                        i <= self.seen_caps@.len(),
                        found == (exists|k: int| 0 <= k < i && self.seen_caps@[k] == c),
                    decreases self.seen_caps@.len() - i,
                {
                    if self.seen_caps[i] == c {
                        found = true;
                    }
                    i = i + 1;
                }
                if !found {
                    self.seen_caps.push(c);
                }
                proof {
                    assert forall|x: Capability| self.spec_has_cap(x) == (old(self).spec_has_cap(x) || x == c) by {
                        if !found {
                            assert(self.seen_caps@ == old(self).seen_caps@.push(c));
                            if x == c {
                                assert(self.seen_caps@[self.seen_caps@.len() - 1] == c);
                            }
                            if old(self).seen_caps@.contains(x) {
                                let k = choose|k: int| 0 <= k < old(self).seen_caps@.len() && old(self).seen_caps@[k] == x;
                                assert(self.seen_caps@[k] == x);
                            }
                            if self.seen_caps@.contains(x) && x != c {
                                let k = choose|k: int| 0 <= k < self.seen_caps@.len() && self.seen_caps@[k] == x;
                                assert(k < old(self).seen_caps@.len());
                                assert(old(self).seen_caps@[k] == x);
                            }
                        } else {
                            if x == c {
                                let k = choose|k: int| 0 <= k < self.seen_caps@.len() && self.seen_caps@[k] == c;
                                assert(self.seen_caps@[k] == c);
                            }
                        }
                    }
                }
            },
            None => {},
        }
        if msg.is_command(IrcMessage::READY) {
            self.seen_ready = true;
        }
        let cmd = msg.get_command();
        match find_key(&self.want, cmd.as_bytes()) {
            Some(i) => {
                let key = self.want[i].0;
                proof {
                    assert(keys_of(self.want@)[i as int] == key.spec_bytes());
                }
                let owned = msg.to_owned_message();
                let ghost q0 = self.queue@;
                match find_key(&self.queue, key.as_bytes()) {
                    Some(j) => {
                        proof {
                            assert(keys_of(q0)[j as int] == q0[j as int].0.spec_bytes());
                            lemma_set_entry(q0, j as int, (key, owned));
                        }
                        self.queue.set(j, (key, owned));
                    },
                    None => {
                        proof {
                            lemma_push_entry(q0, (key, owned));
                        }
                        self.queue.push((key, owned));
                    },
                }
            },
            None => {},
        }
    }

    /// Takes the message with the command `command`, which needs the capability `required`,
    /// if it has come; the wait for it ends then.
    pub fn check_queue(&mut self, command: &'static str, required: Option<Capability>) -> (r: CapsStatus<IrcMessage<'static>>)
        requires
            old(self).wf(),
        ensures
            wait_for_checked(*old(self), *final(self), command.spec_bytes(), required, r),

    {
        if self.seen_ready {
            match required {
                Some(cap) => {
                    let mut found = false;
                    let mut i: usize = 0;
                    while i < self.seen_caps.len()
                        invariant
                            i <= self.seen_caps@.len(),
                            found == (exists|k: int| 0 <= k < i && self.seen_caps@[k] == cap),
                        decreases self.seen_caps@.len() - i,
                    {
                        if self.seen_caps[i] == cap {
                            found = true;
                        }
                        i = i + 1;
                    }
                    if !found {
                        return CapsStatus::RequiredCap(cap);
                    }
                    proof {
                        let k = choose|k: int| 0 <= k < self.seen_caps@.len() && self.seen_caps@[k] == cap;
                        assert(self.seen_caps@[k] == cap);
                    }
                },
                None => {},
            }
        }
        let ghost q0 = self.queue@;
        let ghost w0 = self.want@;
        match find_key(&self.queue, command.as_bytes()) {
            None => CapsStatus::NotSeen,
            Some(j) => {
                proof {
                    assert(keys_of(q0)[j as int] == command.spec_bytes());
                    lemma_remove_entry(q0, j as int);
                }
                let (_, msg) = self.queue.remove(j);
                match find_key(&self.want, command.as_bytes()) {
                    Some(i) => {
                        proof {
                            assert(keys_of(w0)[i as int] == command.spec_bytes());
                            lemma_remove_entry(w0, i as int);
                        }
                        let _ = self.want.remove(i);
                    },
                    None => {},
                }
                CapsStatus::Seen(msg)
            },
        }
    }
}
} // verus!

verus! {

/// A message that is waited for is, once it arrives, handed over by the next check for its
/// command (unless a capability it needs is known to be missing), and the wait for it ends.
pub proof fn arrived_message_is_handed_over(
    w0: WaitFor,
    w1: WaitFor,
    w2: WaitFor,
    msg: IrcMessage<'static>,
    required: Option<Capability>,
    r: CapsStatus<IrcMessage<'static>>,
)
    requires
        w0.wf(),
        value_of(w0.spec_want(), msg.command_bytes()) is Some,
        wait_for_added(w0, w1, msg),
        wait_for_checked(w1, w2, msg.command_bytes(), required, r),
        w1.missing_cap(required) is None,
    ensures
        r matches CapsStatus::Seen(m) && m.raw_bytes() == msg.raw_bytes() && m.spec_parts() == msg.spec_parts(),
        value_of(w2.spec_want(), msg.command_bytes()) is None,
        value_of(w2.spec_queue(), msg.command_bytes()) is None,
{
}

/// A capability that the server acknowledged is never reported missing afterwards.
pub proof fn acknowledged_capability_is_not_missing(w0: WaitFor, w1: WaitFor, msg: IrcMessage, c: Capability)
    requires
        wait_for_added(w0, w1, msg),
        acknowledges(msg, c) || w0.spec_has_cap(c),
    ensures
        w1.missing_cap(Some(c)) is None,
{
}

} // verus!

verus! {

/// Reading a capability back from its name gives that capability, and a name that is read as a
/// capability is that capability's name: `maybe_from_str` undoes `encode_as_str`.
pub proof fn capability_name_round_trip(c: Capability, b: Seq<u8>)
    ensures
        capability_named(c.spec_name()) == Some(c),
        capability_named(b) == Some(c) ==> b == c.spec_name(),
{
    reveal_strlit("twitch.tv/membership");
    reveal_strlit("twitch.tv/tags");
    reveal_strlit("twitch.tv/commands");
    assert(vstd::string::is_ascii("twitch.tv/membership"));
    assert(vstd::string::is_ascii("twitch.tv/tags"));
    assert(vstd::string::is_ascii("twitch.tv/commands"));
    assert(Capability::Membership.spec_name().len() == 20);
    assert(Capability::Tags.spec_name().len() == 14);
    assert(Capability::Commands.spec_name().len() == 18);
}

} // verus!
