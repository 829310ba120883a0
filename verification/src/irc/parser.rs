//! The grammar of a single IRC line: `@tags :prefix COMMAND args :data`.
//!
//! All positions are byte offsets into the whole raw line.
use vstd::prelude::*;
use vstd::utf8::valid_utf8;
use crate::maybe_owned::{MaybeOwnedIndex, spec_index};
use crate::irc::prefix::PrefixIndex;
use crate::text::{
    starts_char, lemma_next_char, find_byte, find_pair, lemma_find_byte_range, find_byte_exec,
    find_pair_exec, trim_start, trim_end, trim_exec, ws_len_before,
};

verus! {

/// `@`
pub const AT: u8 = 0x40;

/// ` `
pub const SPACE: u8 = 0x20;

/// `:`
pub const COLON: u8 = 0x3a;

/// `!`
pub const BANG: u8 = 0x21;

/// `\r`
pub const CR: u8 = 0x0d;

/// `\n`
pub const LF: u8 = 0x0a;

/// The positions of the parts of a message.
#[derive(Copy, Clone, Debug, PartialEq, Eq, Structural)]
pub struct Parts {
    /// Index of the tags (without the leading `@`)
    pub tags: Option<MaybeOwnedIndex>,
    /// Index of the prefix (without the leading `:`)
    pub prefix: Option<PrefixIndex>,
    /// Index of the command
    pub command: MaybeOwnedIndex,
    /// Index of the arguments
    pub args: Option<MaybeOwnedIndex>,
    /// Index of the trailing data (without the leading ` :`)
    pub data: Option<MaybeOwnedIndex>,
}

/// An optional index that, when present, is valid in `b`.
pub open spec fn opt_valid_in(i: Option<MaybeOwnedIndex>, b: Seq<u8>) -> bool {
    i matches Some(i) ==> i.valid_in(b)
}

impl Parts {
    /// Every index lies within `b` on character boundaries.
    pub open spec fn valid_in(self, b: Seq<u8>) -> bool {
        &&& opt_valid_in(self.tags, b)
        &&& (self.prefix matches Some(p) ==> p.spec_index().valid_in(b))
        &&& self.command.valid_in(b)
        &&& opt_valid_in(self.args, b)
        &&& opt_valid_in(self.data, b)
    }
}

/// Where the message ends: before a final `\r\n`, if there is one.
pub open spec fn message_end(b: Seq<u8>) -> int {
    if b.len() >= 2 && b[b.len() - 2] == CR && b[b.len() - 1] == LF {
        b.len() - 2
    } else {
        b.len() as int
    }
}

/// `@tags ` at `p`: the tags and the position after the space.
pub open spec fn spec_parse_tags(b: Seq<u8>, p: int, e: int) -> (Option<MaybeOwnedIndex>, int) {
    if p < e && b[p] == AT && find_byte(b, p, e, SPACE) < e {
        (Some(spec_index(p + 1, find_byte(b, p, e, SPACE))), find_byte(b, p, e, SPACE) + 1)
    } else {
        (None, p)
    }
}

/// `:prefix ` at `p`: a nickname (ended by `!`) or a hostname, and the position after the space.
pub open spec fn spec_parse_prefix(b: Seq<u8>, p: int, e: int) -> (Option<PrefixIndex>, int) {
    if p < e && b[p] == COLON && find_byte(b, p, e, SPACE) < e {
        let j = find_byte(b, p, e, SPACE);
        let k = find_byte(b, p + 1, j, BANG);
        if k < j {
            (Some(PrefixIndex::User { nick: spec_index(p + 1, k) }), j + 1)
        } else {
            (Some(PrefixIndex::Server { host: spec_index(p + 1, j) }), j + 1)
        }
    } else {
        (None, p)
    }
}

/// The command: everything from `p` up to the next space.
pub open spec fn spec_parse_command(b: Seq<u8>, p: int, e: int) -> (MaybeOwnedIndex, int) {
    (spec_index(p, find_byte(b, p, e, SPACE)), find_byte(b, p, e, SPACE))
}

/// The arguments: after the space at `p`, up to the first ` :` (or the end); absent when empty.
pub open spec fn spec_parse_args(b: Seq<u8>, p: int, e: int) -> (Option<MaybeOwnedIndex>, int) {
    if p < e {
        let j = find_pair(b, p, e, SPACE, COLON);
        if p + 1 < j {
            (Some(spec_index(p + 1, j)), j)
        } else {
            (None, j)
        }
    } else {
        (None, p)
    }
}

/// The trailing data: everything after ` :` at `p`.
pub open spec fn spec_parse_data(b: Seq<u8>, p: int, e: int) -> Option<MaybeOwnedIndex> {
    if p + 1 < e && b[p] == SPACE && b[p + 1] == COLON {
        Some(spec_index(p + 2, e))
    } else {
        None
    }
}

/// The start of the message once the final `\r\n` and surrounding whitespace are removed.
pub open spec fn content_start(b: Seq<u8>) -> int {
    trim_start(b, 0, message_end(b))
}

/// The end of the message once the final `\r\n` and surrounding whitespace are removed.
pub open spec fn content_end(b: Seq<u8>) -> int {
    trim_end(b, content_start(b), message_end(b))
}

/// The parts of the message in `b`, or `None` when it holds nothing but whitespace.
pub open spec fn spec_parse_parts(b: Seq<u8>) -> Option<Parts> {
    let s = content_start(b);
    let e = content_end(b);
    if s == e {
        None
    } else {
        let (tags, p1) = spec_parse_tags(b, s, e);
        let (prefix, p2) = spec_parse_prefix(b, p1, e);
        let (command, p3) = spec_parse_command(b, p2, e);
        let (args, p4) = spec_parse_args(b, p3, e);
        let data = spec_parse_data(b, p4, e);
        Some(Parts { tags, prefix, command, args, data })
    }
}

/// Facts shared by every stage: `p` and `e` start characters of the valid UTF-8 `b`.
pub open spec fn stage_pre(b: Seq<u8>, p: int, e: int) -> bool {
    &&& valid_utf8(b)
    &&& b.len() <= u16::MAX
    &&& 0 <= p <= e <= b.len()
    &&& starts_char(b, p)
    &&& starts_char(b, e)
}

fn parse_tags(b: &[u8], p: usize, e: usize) -> (r: (Option<MaybeOwnedIndex>, usize))
    requires
        stage_pre(b@, p as int, e as int),
    ensures
        r.0 == spec_parse_tags(b@, p as int, e as int).0,
        r.1 == spec_parse_tags(b@, p as int, e as int).1,
        stage_pre(b@, r.1 as int, e as int),
        p <= r.1,
        opt_valid_in(r.0, b@),
{
    if p < e && b[p] == AT {
        let j: usize = find_byte_exec(b, p, e, SPACE);
        if j < e {
            proof {
                lemma_find_byte_range(b@, p as int, e as int, SPACE);
                lemma_next_char(b@, p as int);
                lemma_next_char(b@, j as int);
            }
            return (Some(MaybeOwnedIndex::raw(p + 1, j)), j + 1);
        }
    }
    (None, p)
}

fn parse_prefix(b: &[u8], p: usize, e: usize) -> (r: (Option<PrefixIndex>, usize))
    requires
        stage_pre(b@, p as int, e as int),
    ensures
        r.0 == spec_parse_prefix(b@, p as int, e as int).0,
        r.1 == spec_parse_prefix(b@, p as int, e as int).1,
        stage_pre(b@, r.1 as int, e as int),
        p <= r.1,
        r.0 matches Some(i) ==> i.spec_index().valid_in(b@),
{
    if p < e && b[p] == COLON {
        let j: usize = find_byte_exec(b, p, e, SPACE);
        if j < e {
            proof {
                lemma_find_byte_range(b@, p as int, e as int, SPACE);
                lemma_next_char(b@, p as int);
                lemma_next_char(b@, j as int);
            }
            let k: usize = find_byte_exec(b, p + 1, j, BANG);
            if k < j {
                return (Some(PrefixIndex::User { nick: MaybeOwnedIndex::raw(p + 1, k) }), j + 1);
            } else {
                return (Some(PrefixIndex::Server { host: MaybeOwnedIndex::raw(p + 1, j) }), j + 1);
            }
        }
    }
    (None, p)
}

fn parse_command(b: &[u8], p: usize, e: usize) -> (r: (MaybeOwnedIndex, usize))
    requires
        stage_pre(b@, p as int, e as int),
    ensures
        r.0 == spec_parse_command(b@, p as int, e as int).0,
        r.1 == spec_parse_command(b@, p as int, e as int).1,
        stage_pre(b@, r.1 as int, e as int),
        r.1 < e ==> b@[r.1 as int] == SPACE,
        r.0.valid_in(b@),
{
    let j: usize = find_byte_exec(b, p, e, SPACE);
    (MaybeOwnedIndex::raw(p, j), j)
}

fn parse_args(b: &[u8], p: usize, e: usize) -> (r: (Option<MaybeOwnedIndex>, usize))
    requires
        stage_pre(b@, p as int, e as int),
        p < e ==> b@[p as int] == SPACE,
    ensures
        r.0 == spec_parse_args(b@, p as int, e as int).0,
        r.1 == spec_parse_args(b@, p as int, e as int).1,
        stage_pre(b@, r.1 as int, e as int),
        opt_valid_in(r.0, b@),
{
    if p < e {
        let j: usize = find_pair_exec(b, p, e, SPACE, COLON);
        if p + 1 < j {
            proof {
                lemma_next_char(b@, p as int);
            }
            (Some(MaybeOwnedIndex::raw(p + 1, j)), j)
        } else {
            (None, j)
        }
    } else {
        (None, p)
    }
}

fn parse_data(b: &[u8], p: usize, e: usize) -> (r: Option<MaybeOwnedIndex>)
    requires
        stage_pre(b@, p as int, e as int),
    ensures
        r == spec_parse_data(b@, p as int, e as int),
        opt_valid_in(r, b@),
{
    if p < e && e - p > 1 && b[p] == SPACE && b[p + 1] == COLON {
        proof {
            lemma_next_char(b@, p as int);
            lemma_next_char(b@, p + 1);
        }
        Some(MaybeOwnedIndex::raw(p + 2, e))
    } else {
        None
    }
}

/// Splits the line in `b` into its parts.
pub fn parse_parts(b: &[u8]) -> (r: Option<Parts>)
    requires
        valid_utf8(b@),
        b@.len() <= u16::MAX,
    ensures
        r == spec_parse_parts(b@),
        r matches Some(parts) ==> parts.valid_in(b@),
{
    let n: usize = b.len();
    let end: usize = if n >= 2 && b[n - 2] == CR && b[n - 1] == LF {
        n - 2
    } else {
        n
    };
    proof {
        if end < n {
            lemma_next_char(b@, end as int);
        }
        assert(starts_char(b@, 0));
    }
    let (s, e) = trim_exec(b, 0, end);
    if s == e {
        return None;
    }
    let (tags, p1) = parse_tags(b, s, e);
    let (prefix, p2) = parse_prefix(b, p1, e);
    let (command, p3) = parse_command(b, p2, e);
    let (args, p4) = parse_args(b, p3, e);
    let data = parse_data(b, p4, e);
    Some(Parts { tags, prefix, command, args, data })
}

} // verus!

verus! {

/// Removing trailing whitespace never removes a visible ASCII character.
proof fn lemma_trim_end_keeps_visible(b: Seq<u8>, s: int, e: int, i: int)
    requires
        0 <= s <= i < e <= b.len(),
        0x21 <= b[i] <= 0x7e,
    ensures
        trim_end(b, s, e) > i,
    decreases e - s,
{
    if s < e && ws_len_before(b, s, e) > 0 {
        let w = ws_len_before(b, s, e);
        assert(e - w > i) by {
            if e - w <= i {
                assert(i == e - 1 || i == e - 2 || i == e - 3);
            }
        }
        lemma_trim_end_keeps_visible(b, s, e - w, i);
    }
}

/// The first position of `c` in `from..to` is `i` when `b[i]` is `c` and no byte before it is.
proof fn lemma_find_byte_is(b: Seq<u8>, from: int, to: int, c: u8, i: int)
    requires
        from <= i <= to,
        i < to ==> b[i] == c,
        forall|k: int| from <= k < i ==> b[k] != c,
    ensures
        find_byte(b, from, to, c) == i,
{
    lemma_find_byte_range(b, from, to, c);
}

/// The line `:h c` with no space in `h` and a visible character first in `c`: it starts with
/// its `:`, keeps `h` after it, and its first space within the content follows `h`.
proof fn lemma_prefixed_line(h: Seq<u8>, c: Seq<u8>)
    requires
        forall|i: int| 0 <= i < h.len() ==> h[i] != SPACE,
        c.len() > 0,
        0x21 <= c[0] <= 0x7e,
        h.len() + c.len() + 2 <= u16::MAX,
    ensures
        ({
            let b = seq![COLON] + h + seq![SPACE] + c;
            &&& b.len() == h.len() + c.len() + 2
            &&& content_start(b) == 0
            &&& content_end(b) > h.len() + 2
            &&& b[0] == COLON
            &&& forall|i: int| 0 <= i < h.len() ==> b[1 + i] == #[trigger] h[i]
            &&& find_byte(b, 0, content_end(b), SPACE) == h.len() + 1
        }),
{
    let b = seq![COLON] + h + seq![SPACE] + c;
    let b1 = seq![COLON] + h;
    let b2 = b1 + seq![SPACE];
    let j: int = h.len() as int + 1;
    let ci: int = h.len() as int + 2;
    assert(b.len() == h.len() + c.len() + 2);
    assert(b[0] == b1[0]);
    assert(b[0] == COLON);
    assert forall|i: int| 0 <= i < h.len() implies b[1 + i] == #[trigger] h[i] by {
        assert(b[1 + i] == b2[1 + i]);
        assert(b2[1 + i] == b1[1 + i]);
    }
    assert(b[j] == b2[j]);
    assert(b[j] == SPACE);
    assert(b[ci] == c[0]);
    let me = message_end(b);
    assert(me > ci) by {
        if b.len() >= 2 && b[b.len() - 2] == CR && b[b.len() - 1] == LF {
            assert(ci != b.len() - 1 && ci != b.len() - 2);
        }
    }
    assert(content_start(b) == 0);
    lemma_trim_end_keeps_visible(b, 0, me, ci);
    let e = content_end(b);
    assert forall|k: int| 0 <= k < j implies b[k] != SPACE by {
        if k > 0 {
            assert(b[1 + (k - 1)] == h[k - 1]);
        }
    }
    lemma_find_byte_is(b, 0, e, SPACE, j);
}

/// The line `:h c`, where the prefix `h` holds no space and no `!` and what follows the space
/// starts with a visible character, has a server prefix whose host is exactly `h`, the text
/// between the `:` and the first space, and its command starts right after that space.
pub proof fn server_prefix_is_the_text_after_the_colon(h: Seq<u8>, c: Seq<u8>)
    requires
        forall|i: int| 0 <= i < h.len() ==> h[i] != SPACE && h[i] != BANG,
        c.len() > 0,
        0x21 <= c[0] <= 0x7e,
        h.len() + c.len() + 2 <= u16::MAX,
    ensures
        ({
            let b = seq![COLON] + h + seq![SPACE] + c;
            &&& spec_parse_parts(b) matches Some(parts)
            &&& parts.tags is None
            &&& parts.prefix matches Some(PrefixIndex::Server { host })
            &&& host.bytes_of(b) == h
            &&& parts.command.start == h.len() + 2
        }),
{
    let b = seq![COLON] + h + seq![SPACE] + c;
    let j: int = h.len() as int + 1;
    lemma_prefixed_line(h, c);
    assert forall|k: int| 1 <= k < j implies b[k] != BANG by {
        assert(b[1 + (k - 1)] == h[k - 1]);
    }
    lemma_find_byte_is(b, 1, j, BANG, j);
    let parts = spec_parse_parts(b)->Some_0;
    assert(parts.prefix == Some(PrefixIndex::Server { host: spec_index(1, j) }));
    assert(spec_index(1, j).bytes_of(b) =~= h);
}

/// The line `:n!u c`, where the nickname `n` holds no space and no `!`, `u` holds no space, and
/// what follows the space starts with a visible character, has a user prefix whose nickname is
/// exactly `n`, the text between the `:` and the first `!`.
pub proof fn user_prefix_is_the_nick_before_the_bang(n: Seq<u8>, u: Seq<u8>, c: Seq<u8>)
    requires
        forall|i: int| 0 <= i < n.len() ==> n[i] != SPACE && n[i] != BANG,
        forall|i: int| 0 <= i < u.len() ==> u[i] != SPACE,
        c.len() > 0,
        0x21 <= c[0] <= 0x7e,
        n.len() + u.len() + c.len() + 3 <= u16::MAX,
    ensures
        ({
            let b = seq![COLON] + (n + seq![BANG] + u) + seq![SPACE] + c;
            &&& spec_parse_parts(b) matches Some(parts)
            &&& parts.tags is None
            &&& parts.prefix matches Some(PrefixIndex::User { nick })
            &&& nick.bytes_of(b) == n
            &&& parts.command.start == n.len() + u.len() + 3
        }),
{
    let h = n + seq![BANG] + u;
    let b = seq![COLON] + h + seq![SPACE] + c;
    let j: int = h.len() as int + 1;
    let k: int = n.len() as int + 1;
    let h1 = n + seq![BANG];
    assert forall|i: int| 0 <= i < h.len() implies h[i] != SPACE by {
        if i < n.len() {
            assert(h[i] == h1[i]);
        } else if i > n.len() {
            assert(h[i] == u[i - n.len() - 1]);
        } else {
            assert(h[i] == h1[i]);
        }
    }
    lemma_prefixed_line(h, c);
    assert forall|x: int| 1 <= x < k implies b[x] != BANG by {
        assert(b[1 + (x - 1)] == h[x - 1]);
        assert(h[x - 1] == h1[x - 1]);
    }
    assert(b[k] == h[n.len() as int]);
    assert(h[n.len() as int] == h1[n.len() as int]);
    lemma_find_byte_is(b, 1, j, BANG, k);
    let parts = spec_parse_parts(b)->Some_0;
    assert(parts.prefix == Some(PrefixIndex::User { nick: spec_index(1, k) }));
    assert forall|x: int| 0 <= x < n.len() implies spec_index(1, k).bytes_of(b)[x] == n[x] by {
        assert(b[1 + x] == h[x]);
        assert(h[x] == h1[x]);
    }
    assert(spec_index(1, k).bytes_of(b) =~= n);
}

} // verus!
