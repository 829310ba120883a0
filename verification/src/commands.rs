//! Commands that can be encoded and sent to Twitch.
//!
//! Each command encodes to one `\r\n`-terminated IRC line. Commands sent to a
//! channel start the channel's name with `#`, adding it when it is missing.
pub mod ban;
pub mod command;
pub mod emote_only;
pub mod emote_only_off;
pub mod join;
pub mod mods;
pub mod part;
pub mod ping;
pub mod pong;
pub mod privmsg;
pub mod raid;
pub mod reply;
pub mod subscribers;
pub mod subscribers_off;
pub mod unhost;
pub mod unraid;
pub mod whisper;

pub use ban::{ban, Ban};
pub use command::{command, Command};
pub use emote_only::{emote_only, EmoteOnly};
pub use emote_only_off::{emote_only_off, EmoteOnlyOff};
pub use join::{join, Join};
pub use mods::{mods, Mods};
pub use part::{part, Part};
pub use ping::{ping, Ping};
pub use pong::{pong, Pong};
pub use privmsg::{privmsg, Privmsg};
pub use raid::{raid, Raid};
pub use reply::{reply, Reply};
pub use subscribers::{subscribers, Subscribers};
pub use subscribers_off::{subscribers_off, SubscribersOff};
pub use unhost::{unhost, Unhost};
pub use unraid::{unraid, Unraid};
pub use whisper::{whisper, Whisper};

use vstd::prelude::*;
use vstd::string::StringSliceAdditionalSpecFns;
use crate::irc::parser::{
    COLON, CR, LF, Parts, spec_parse_parts, message_end, content_start, content_end,
};
use crate::maybe_owned::spec_index;
use crate::text::{
    find_pair, find_byte, ws_len_at, ws_len_before, lemma_find_pair_le, lemma_find_pair_range,
    lemma_find_byte_range,
};

verus! {

broadcast use vstd::string::group_string_axioms;

/// The `#` that starts a channel's name.
pub const HASH: u8 = 0x23;

/// The byte that separates the words of a command.
pub const SPACE: u8 = 0x20;

/// Something that can be encoded as IRC lines.
pub trait Encodable {
    /// The bytes this encodes to.
    spec fn encoding(&self) -> Seq<u8>;

    /// Appends the encoding of this to `buf`.
    fn encode(&self, buf: &mut Vec<u8>)
        ensures
            final(buf)@ == old(buf)@ + self.encoding(),
    ;
}

/// The name of a channel, starting with `#`: `c` itself when it already does, else `#` and `c`.
pub open spec fn channel_name(c: Seq<u8>) -> Seq<u8> {
    if c.len() > 0 && c[0] == HASH {
        c
    } else {
        seq![HASH] + c
    }
}

/// The non-empty `parts`, in order, separated by single spaces.
pub open spec fn joined(parts: Seq<Seq<u8>>) -> Seq<u8>
    decreases parts.len(),
{
    if parts.len() == 0 {
        Seq::empty()
    } else {
        let init = joined(parts.drop_last());
        let last = parts.last();
        if last.len() == 0 {
            init
        } else if init.len() == 0 {
            last
        } else {
            init + seq![SPACE] + last
        }
    }
}

/// The line ending.
pub open spec fn crlf() -> Seq<u8> {
    "\r\n".spec_bytes()
}

/// The line `PRIVMSG <channel> :<body>\r\n`, with the channel's name starting with `#`.
pub open spec fn privmsg_line(channel: Seq<u8>, body: Seq<u8>) -> Seq<u8> {
    "PRIVMSG ".spec_bytes() + channel_name(channel) + " :".spec_bytes() + body + crlf()
}

/// The line `<verb><arg>\r\n`.
pub open spec fn simple_line(verb: Seq<u8>, arg: Seq<u8>) -> Seq<u8> {
    verb + arg + crlf()
}

/// The bytes of each string.
pub open spec fn parts_bytes(parts: Seq<&str>) -> Seq<Seq<u8>> {
    parts.map_values(|s: &str| s.spec_bytes())
}

/// Appends `s` to `buf`.
pub fn push_bytes(buf: &mut Vec<u8>, s: &[u8])
    ensures
        final(buf)@ == old(buf)@ + s@,
{
    let mut i: usize = 0;
    while i < s.len()
        invariant
            i <= s@.len(),
            buf@ == old(buf)@ + s@.subrange(0, i as int),
        decreases s@.len() - i,
    {
        buf.push(s[i]);
        i = i + 1;
        assert(buf@ =~= old(buf)@ + s@.subrange(0, i as int));
    }
    assert(s@.subrange(0, s@.len() as int) =~= s@);
}

/// Appends the bytes of `s` to `buf`.
pub fn push_str(buf: &mut Vec<u8>, s: &str)
    ensures
        final(buf)@ == old(buf)@ + s.spec_bytes(),
{
    push_bytes(buf, s.as_bytes());
}

/// Appends the name of `channel` to `buf`, adding a leading `#` when it has none.
pub fn push_channel(buf: &mut Vec<u8>, channel: &str)
    ensures
        final(buf)@ == old(buf)@ + channel_name(channel.spec_bytes()),
{
    let b = channel.as_bytes();
    if b.len() > 0 && b[0] == HASH {
        push_bytes(buf, b);
    } else {
        buf.push(HASH);
        push_bytes(buf, b);
        assert(buf@ =~= old(buf)@ + (seq![HASH] + b@));
    }
}

/// Appends the non-empty `parts`, separated by single spaces, to `buf`.
pub fn push_joined(buf: &mut Vec<u8>, parts: &Vec<&str>)
    ensures
        final(buf)@ == old(buf)@ + joined(parts_bytes(parts@)),
{
    let ghost ps = parts_bytes(parts@);
    let mut wrote: bool = false;
    let mut i: usize = 0;
    assert(ps.take(0) =~= Seq::<Seq<u8>>::empty());
    while i < parts.len()
        invariant
            i <= parts@.len(),
            ps == parts_bytes(parts@),
            ps.len() == parts@.len(),
            buf@ == old(buf)@ + joined(ps.take(i as int)),
            wrote == (joined(ps.take(i as int)).len() > 0),
        decreases parts@.len() - i,
    {
        let part = parts[i];
        let ghost before = ps.take(i as int);
        let ghost after = ps.take(i + 1);
        assert(after.drop_last() =~= before);
        assert(after.last() == part.spec_bytes());
        assert(joined(after) == (if part.spec_bytes().len() == 0 {
            joined(before)
        } else if joined(before).len() == 0 {
            part.spec_bytes()
        } else {
            joined(before) + seq![SPACE] + part.spec_bytes()
        }));
        if part.as_bytes().len() > 0 {
            if wrote {
                buf.push(SPACE);
            }
            push_str(buf, part);
            assert(buf@ =~= old(buf)@ + joined(after));
            wrote = true;
        }
        i = i + 1;
    }
    assert(ps.take(parts@.len() as int) =~= ps);
}

/// Appends `PRIVMSG <channel> :<body>\r\n` to `buf`, where the body is the non-empty `parts`
/// separated by spaces.
pub fn push_privmsg_parts(buf: &mut Vec<u8>, channel: &str, parts: &Vec<&str>)
    ensures
        final(buf)@ == old(buf)@ + privmsg_line(channel.spec_bytes(), joined(parts_bytes(parts@))),
{
    push_str(buf, "PRIVMSG ");
    push_channel(buf, channel);
    push_str(buf, " :");
    push_joined(buf, parts);
    push_str(buf, "\r\n");
    assert(buf@ =~= old(buf)@ + privmsg_line(channel.spec_bytes(), joined(parts_bytes(parts@))));
}

/// Appends `PRIVMSG <channel> :<body>\r\n` to `buf`.
pub fn push_privmsg(buf: &mut Vec<u8>, channel: &str, body: &str)
    ensures
        final(buf)@ == old(buf)@ + privmsg_line(channel.spec_bytes(), body.spec_bytes()),
{
    push_str(buf, "PRIVMSG ");
    push_channel(buf, channel);
    push_str(buf, " :");
    push_str(buf, body);
    push_str(buf, "\r\n");
    assert(buf@ =~= old(buf)@ + privmsg_line(channel.spec_bytes(), body.spec_bytes()));
}

/// Appends `<verb><arg>\r\n` to `buf`.
pub fn push_simple(buf: &mut Vec<u8>, verb: &str, arg: &str)
    ensures
        final(buf)@ == old(buf)@ + simple_line(verb.spec_bytes(), arg.spec_bytes()),
{
    push_str(buf, verb);
    push_str(buf, arg);
    push_str(buf, "\r\n");
    assert(buf@ =~= old(buf)@ + simple_line(verb.spec_bytes(), arg.spec_bytes()));
}

/// The encoding of `cmd` as a fresh buffer.
pub fn encode_to_vec<E: Encodable>(cmd: &E) -> (r: Vec<u8>)
    ensures
        r@ == cmd.encoding(),
{
    let mut buf: Vec<u8> = Vec::new();
    cmd.encode(&mut buf);
    assert(buf@ =~= Seq::<u8>::empty() + cmd.encoding());
    buf
}

/// Text that is already a line (or lines) encodes as itself.
impl<'a> Encodable for &'a str {
    open spec fn encoding(&self) -> Seq<u8> {
        (*self).spec_bytes()
    }

    fn encode(&self, buf: &mut Vec<u8>) {
        push_str(buf, *self);
    }
}

/// Text that is already a line (or lines) encodes as itself.
impl Encodable for String {
    open spec fn encoding(&self) -> Seq<u8> {
        vstd::utf8::encode_utf8(self@)
    }

    fn encode(&self, buf: &mut Vec<u8>) {
        push_str(buf, self.as_str());
    }
}

/// Bytes that are already a line (or lines) encode as themselves.
impl Encodable for Vec<u8> {
    open spec fn encoding(&self) -> Seq<u8> {
        self@
    }

    fn encode(&self, buf: &mut Vec<u8>) {
        push_bytes(buf, self.as_slice());
    }
}

} // verus!

verus! {

/// The line ending is the two bytes CR and LF.
pub proof fn crlf_bytes()
    ensures
        crlf() == seq![0x0du8, 0x0au8],
{
    reveal_strlit("\r\n");
    assert(vstd::string::is_ascii("\r\n"));
    assert(crlf() =~= seq![0x0du8, 0x0au8]);
}

/// A channel's name always starts with `#`, and naming it again changes nothing.
pub proof fn channel_name_is_normalized(c: Seq<u8>)
    ensures
        channel_name(c).len() > 0,
        channel_name(c)[0] == HASH,
        channel_name(channel_name(c)) == channel_name(c),
{
}

/// A command sent to a channel encodes the same whether or not the channel's name
/// already starts with `#`.
pub proof fn privmsg_line_normalizes_channel(c: Seq<u8>, body: Seq<u8>)
    ensures
        privmsg_line(channel_name(c), body) == privmsg_line(c, body),
{
    channel_name_is_normalized(c);
}

/// Every line ends with `\r\n`.
pub proof fn lines_end_with_crlf(verb: Seq<u8>, c: Seq<u8>, body: Seq<u8>)
    ensures
        privmsg_line(c, body).len() >= 2,
        privmsg_line(c, body).subrange(privmsg_line(c, body).len() - 2, privmsg_line(c, body).len() as int) == crlf(),
        simple_line(verb, body).len() >= 2,
        simple_line(verb, body).subrange(simple_line(verb, body).len() - 2, simple_line(verb, body).len() as int) == crlf(),
{
    crlf_bytes();
    let x = "PRIVMSG ".spec_bytes() + channel_name(c) + " :".spec_bytes() + body;
    let p = privmsg_line(c, body);
    assert(p == x + crlf());
    assert(p.subrange(p.len() - 2, p.len() as int) =~= crlf());
    let y = verb + body;
    let s = simple_line(verb, body);
    assert(s == y + crlf());
    assert(s.subrange(s.len() - 2, s.len() as int) =~= crlf());
}

} // verus!

verus! {

/// The first `c1 c2` pair in `from..to` is at `i` or later when none starts before `i`.
proof fn lemma_find_pair_ge(b: Seq<u8>, from: int, to: int, c1: u8, c2: u8, i: int)
    requires
        from <= i <= to,
        forall|k: int| from <= k < i && k + 1 < to ==> !(#[trigger] b[k] == c1 && b[k + 1] == c2),
    ensures
        find_pair(b, from, to, c1, c2) >= i,
    decreases i - from,
{
    lemma_find_pair_range(b, from, to, c1, c2);
    if from < i && from + 1 < to {
        lemma_find_pair_ge(b, from + 1, to, c1, c2, i);
    }
}

/// A chat line parses back to what was encoded: the command `PRIVMSG`, the channel's name
/// as the arguments and the text as the trailing data. This holds when the channel's name has
/// no ` :` in it (that pair starts the data) and the text does not end in whitespace (the
/// parser trims it).
pub proof fn privmsg_line_parses_back(c: Seq<u8>, m: Seq<u8>)
    requires
        find_pair(channel_name(c), 0, channel_name(c).len() as int, SPACE, COLON) == channel_name(c).len(),
        ws_len_before(m, 0, m.len() as int) == 0,
    ensures
        ({
            let b = privmsg_line(c, m);
            let n = channel_name(c).len() as int;
            &&& spec_parse_parts(b) == Some(
                Parts {
                    tags: None,
                    prefix: None,
                    command: spec_index(0, 7),
                    args: Some(spec_index(8, 8 + n)),
                    data: Some(spec_index(10 + n, 10 + n + m.len())),
                },
            )
            &&& b.subrange(0, 7) == "PRIVMSG".spec_bytes()
            &&& b.subrange(8, 8 + n) == channel_name(c)
            &&& b.subrange(10 + n, 10 + n + m.len()) == m
        }),
{
    let cn = channel_name(c);
    let n = cn.len() as int;
    let b = privmsg_line(c, m);
    channel_name_is_normalized(c);
    crlf_bytes();
    reveal_strlit("PRIVMSG ");
    reveal_strlit("PRIVMSG");
    reveal_strlit(" :");
    assert(vstd::string::is_ascii("PRIVMSG "));
    assert(vstd::string::is_ascii("PRIVMSG"));
    assert(vstd::string::is_ascii(" :"));
    let pre = "PRIVMSG ".spec_bytes();
    let sc = " :".spec_bytes();
    assert(pre =~= seq![0x50u8, 0x52u8, 0x49u8, 0x56u8, 0x4du8, 0x53u8, 0x47u8, 0x20u8]);
    assert(sc =~= seq![0x20u8, 0x3au8]);
    assert("PRIVMSG".spec_bytes() =~= pre.subrange(0, 7));
    let e = 10 + n + m.len();
    assert(b =~= pre + cn + sc + m + crlf());
    assert(b.len() == e + 2);
    assert forall|k: int| 0 <= k < 8 implies b[k] == pre[k] by {}
    assert forall|k: int| 0 <= k < n implies #[trigger] b[8 + k] == cn[k] by {}
    assert(b[8 + n] == SPACE && b[9 + n] == COLON);
    assert forall|k: int| 0 <= k < m.len() implies #[trigger] b[10 + n + k] == m[k] by {}
    assert(b[e] == CR && b[e + 1] == LF);
    assert(b.subrange(0, 7) =~= pre.subrange(0, 7));
    assert(b.subrange(8, 8 + n) =~= cn);
    assert(b.subrange(10 + n, 10 + n + m.len()) =~= m);
    // the line ends with `\r\n` and no whitespace before it, and starts with `P`
    assert(message_end(b) == e);
    assert(ws_len_at(b, 0, e) == 0);
    assert(content_start(b) == 0);
    if m.len() >= 3 {
        assert(b[e - 1] == m[m.len() - 1] && b[e - 2] == m[m.len() - 2] && b[e - 3] == m[m.len() - 3]);
    } else if m.len() == 2 {
        assert(b[e - 1] == m[1] && b[e - 2] == m[0] && b[e - 3] == COLON);
    } else if m.len() == 1 {
        assert(b[e - 1] == m[0] && b[e - 2] == COLON && b[e - 3] == SPACE);
    } else {
        assert(b[e - 1] == COLON && b[e - 2] == SPACE);
    }
    assert(ws_len_before(b, 0, e) == 0);
    assert(content_end(b) == e);
    // the command runs up to the first space
    lemma_find_byte_range(b, 0, e, SPACE);
    assert(find_byte(b, 0, e, SPACE) == 7);
    // the arguments run up to the first ` :`, which follows the channel's name
    assert forall|k: int| 0 <= k && k + 1 < n implies !(#[trigger] cn[k] == SPACE && cn[k + 1] == COLON) by {
        if cn[k] == SPACE && cn[k + 1] == COLON {
            lemma_find_pair_le(cn, 0, n, SPACE, COLON, k);
        }
    }
    assert forall|k: int| 7 <= k < 8 + n && k + 1 < e implies !(#[trigger] b[k] == SPACE && b[k + 1] == COLON) by {
        if k == 7 {
            assert(b[8] == cn[0]);
        } else if k + 1 < 8 + n {
            assert(b[k] == cn[k - 8] && b[k + 1] == cn[k + 1 - 8]);
        } else {
            assert(b[k + 1] == b[8 + n]);
        }
    }
    lemma_find_pair_ge(b, 7, e, SPACE, COLON, 8 + n);
    lemma_find_pair_le(b, 7, e, SPACE, COLON, 8 + n);
    assert(find_pair(b, 7, e, SPACE, COLON) == 8 + n);
}

} // verus!

verus! {

/// A one-argument line such as `JOIN #channel`, `PART #channel` or `PING token` parses back
/// to what was encoded: the word before the space as the command and the rest as the
/// arguments, with no trailing data. This holds when the command is a word of capital letters
/// and the argument is not empty, does not start with `:`, has no ` :` in it (that pair
/// starts the data) and does not end in whitespace (the parser trims it).
pub proof fn simple_line_parses_back(w: Seq<u8>, arg: Seq<u8>)
    requires
        w.len() > 0,
        forall|i: int| 0 <= i < w.len() ==> 0x41 <= #[trigger] w[i] <= 0x5a,
        arg.len() > 0,
        arg[0] != COLON,
        find_pair(arg, 0, arg.len() as int, SPACE, COLON) == arg.len(),
        ws_len_before(arg, 0, arg.len() as int) == 0,
    ensures
        ({
            let b = simple_line(w.push(SPACE), arg);
            let v = w.len() as int;
            &&& spec_parse_parts(b) == Some(
                Parts {
                    tags: None,
                    prefix: None,
                    command: spec_index(0, v),
                    args: Some(spec_index(v + 1, v + 1 + arg.len())),
                    data: None,
                },
            )
            &&& b.subrange(0, v) == w
            &&& b.subrange(v + 1, v + 1 + arg.len()) == arg
        }),
{
    let v = w.len() as int;
    let n = arg.len() as int;
    let b = simple_line(w.push(SPACE), arg);
    let e = v + 1 + n;
    crlf_bytes();
    assert(b =~= w + seq![SPACE] + arg + crlf());
    assert(b.len() == e + 2);
    assert forall|k: int| 0 <= k < v implies #[trigger] b[k] == w[k] by {}
    assert(b[v] == SPACE);
    assert forall|k: int| 0 <= k < n implies #[trigger] b[v + 1 + k] == arg[k] by {}
    assert(b[e] == CR && b[e + 1] == LF);
    assert(b.subrange(0, v) =~= w);
    assert(b.subrange(v + 1, e) =~= arg);
    // the line ends with `\r\n` and no whitespace before it, and starts with a capital letter
    assert(message_end(b) == e);
    assert(0x41 <= b[0] <= 0x5a);
    assert(ws_len_at(b, 0, e) == 0);
    assert(content_start(b) == 0);
    if n >= 3 {
        assert(b[e - 1] == arg[n - 1] && b[e - 2] == arg[n - 2] && b[e - 3] == arg[n - 3]);
    } else if n == 2 {
        assert(b[e - 1] == arg[1] && b[e - 2] == arg[0] && b[e - 3] == SPACE);
    } else {
        assert(b[e - 1] == arg[0] && b[e - 2] == SPACE);
        if v >= 1 {
            assert(b[e - 3] == w[v - 1]);
        }
    }
    assert(ws_len_before(b, 0, e) == 0);
    assert(content_end(b) == e);
    // the command runs up to the first space
    lemma_find_byte_range(b, 0, e, SPACE);
    assert(b[v] == SPACE);
    assert(find_byte(b, 0, e, SPACE) == v);
    // no ` :` follows: the arguments run to the end and there is no data
    assert forall|k: int| 0 <= k && k + 1 < n implies !(#[trigger] arg[k] == SPACE && arg[k + 1] == COLON) by {
        if arg[k] == SPACE && arg[k + 1] == COLON {
            lemma_find_pair_le(arg, 0, n, SPACE, COLON, k);
        }
    }
    assert forall|k: int| v <= k < e && k + 1 < e implies !(#[trigger] b[k] == SPACE && b[k + 1] == COLON) by {
        if k == v {
            assert(b[v + 1] == arg[0]);
        } else {
            assert(b[k] == arg[k - v - 1] && b[k + 1] == arg[k + 1 - v - 1]);
        }
    }
    lemma_find_pair_ge(b, v, e, SPACE, COLON, e);
    lemma_find_pair_range(b, v, e, SPACE, COLON);
    assert(find_pair(b, v, e, SPACE, COLON) == e);
}

} // verus!
