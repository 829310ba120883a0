//! Byte-level helpers over UTF-8 strings: character boundaries and
//! substring extraction by byte offsets.
use vstd::prelude::*;
use vstd::utf8::*;
use vstd::string::StringSliceAdditionalSpecFns;

verus! {

broadcast use vstd::string::group_string_axioms, vstd::utf8::encode_utf8_valid_utf8;

/// A byte offset `i` into `b` at which a character starts (or the end of `b`):
/// `i` is in bounds and the byte there is not a UTF-8 continuation byte.
pub open spec fn starts_char(b: Seq<u8>, i: int) -> bool {
    0 <= i <= b.len() && (i == b.len() || !is_continuation_byte(b[i]))
}

/// In valid UTF-8, every offset that does not land on a continuation byte is a
/// character boundary.
pub proof fn lemma_starts_char_is_boundary(b: Seq<u8>, i: int)
    requires
        valid_utf8(b),
        starts_char(b, i),
    ensures
        is_char_boundary(b, i),
    decreases b.len(),
{
    if i == 0 {
    } else {
        let k = length_of_first_scalar(b);
        let rest = pop_first_scalar(b);
        assert(rest.len() == b.len() - k);
        if i < k {
            assert(is_continuation_byte(b[i]));
        } else {
            assert(i - k == rest.len() || rest[i - k] == b[i]);
            lemma_starts_char_is_boundary(rest, i - k);
        }
    }
}

/// The substring of `s` between byte offsets `start` and `end`.
pub fn slice_str(s: &str, start: usize, end: usize) -> (r: &str)
    requires
        start <= end,
        starts_char(s.spec_bytes(), start as int),
        starts_char(s.spec_bytes(), end as int),
    ensures
        r.spec_bytes() == s.spec_bytes().subrange(start as int, end as int),
{
    let ghost b = s.spec_bytes();
    proof {
        lemma_starts_char_is_boundary(b, end as int);
    }
    let (a, _) = s.split_at(end);
    proof {
        valid_utf8_split(b, end as int);
        assert(a.spec_bytes() =~= b.subrange(0, end as int));
        lemma_starts_char_is_boundary(a.spec_bytes(), start as int);
    }
    let (_, c) = a.split_at(start);
    assert(c.spec_bytes() =~= b.subrange(start as int, end as int));
    c
}


/// The number of bytes in the UTF-8 encoding of a character whose first byte is `lead`.
pub open spec fn lead_width(lead: u8) -> int {
    if lead <= 0x7f {
        1
    } else if 0xc0 <= lead <= 0xdf {
        2
    } else if 0xe0 <= lead <= 0xef {
        3
    } else {
        4
    }
}

/// In valid UTF-8, the character starting at `i` is followed by another character start.
pub proof fn lemma_next_char(b: Seq<u8>, i: int)
    requires
        valid_utf8(b),
        starts_char(b, i),
        i < b.len(),
    ensures
        i + lead_width(b[i]) <= b.len(),
        starts_char(b, i + lead_width(b[i])),
{
    lemma_starts_char_is_boundary(b, i);
    valid_utf8_split(b, i);
    let s = b.subrange(i, b.len() as int);
    assert(s[0] == b[i]);
    let k = length_of_first_scalar(s);
    assert(k == lead_width(b[i]));
    let rest = pop_first_scalar(s);
    assert(rest.len() == s.len() - k);
    if i + k < b.len() {
        assert(rest[0] == b[i + k]);
        assert(valid_utf8(rest));
        reveal_with_fuel(valid_utf8, 2);
        assert(valid_first_scalar(rest));
    }
}

/// A byte that `u8::is_ascii_whitespace` accepts: space, tab, line feed, form feed, carriage return.
pub open spec fn is_ascii_ws(c: u8) -> bool {
    c == 0x20 || c == 0x09 || c == 0x0a || c == 0x0c || c == 0x0d
}

/// A one-byte character that `char::is_whitespace` accepts (U+0009..=U+000D and U+0020).
pub open spec fn is_ws1(c: u8) -> bool {
    c == 0x20 || (0x09 <= c && c <= 0x0d)
}

/// The two-byte encodings of Unicode whitespace: U+0085 and U+00A0.
pub open spec fn is_ws2(x: u8, y: u8) -> bool {
    x == 0xc2 && (y == 0x85 || y == 0xa0)
}

/// The three-byte encodings of Unicode whitespace: U+1680, U+2000..=U+200A, U+2028,
/// U+2029, U+202F, U+205F and U+3000.
pub open spec fn is_ws3(x: u8, y: u8, z: u8) -> bool {
    ||| (x == 0xe1 && y == 0x9a && z == 0x80)
    ||| (x == 0xe2 && y == 0x80 && ((0x80 <= z && z <= 0x8a) || z == 0xa8 || z == 0xa9 || z
        == 0xaf))
    ||| (x == 0xe2 && y == 0x81 && z == 0x9f)
    ||| (x == 0xe3 && y == 0x80 && z == 0x80)
}

/// The byte length of the whitespace character that starts at `i` and ends by `e`, or 0.
pub open spec fn ws_len_at(b: Seq<u8>, i: int, e: int) -> int {
    if 0 <= i < e && is_ws1(b[i]) {
        1
    } else if 0 <= i && i + 1 < e && is_ws2(b[i], b[i + 1]) {
        2
    } else if 0 <= i && i + 2 < e && is_ws3(b[i], b[i + 1], b[i + 2]) {
        3
    } else {
        0
    }
}

/// The byte length of the whitespace character that ends at `j` and starts at or after `s`, or 0.
pub open spec fn ws_len_before(b: Seq<u8>, s: int, j: int) -> int {
    if s < j && is_ws1(b[j - 1]) {
        1
    } else if s + 1 < j && is_ws2(b[j - 2], b[j - 1]) {
        2
    } else if s + 2 < j && is_ws3(b[j - 3], b[j - 2], b[j - 1]) {
        3
    } else {
        0
    }
}

/// The start of `b[s..e]` once leading whitespace is removed.
pub open spec fn trim_start(b: Seq<u8>, s: int, e: int) -> int
    decreases e - s,
{
    if s < e && ws_len_at(b, s, e) > 0 {
        trim_start(b, s + ws_len_at(b, s, e), e)
    } else {
        s
    }
}

/// The end of `b[s..e]` once trailing whitespace is removed.
pub open spec fn trim_end(b: Seq<u8>, s: int, e: int) -> int
    decreases e - s,
{
    if s < e && ws_len_before(b, s, e) > 0 {
        trim_end(b, s, e - ws_len_before(b, s, e))
    } else {
        e
    }
}

/// The first position in `from..to` holding `c`, or `to`.
pub open spec fn find_byte(b: Seq<u8>, from: int, to: int, c: u8) -> int
    decreases to - from,
{
    if from >= to {
        to
    } else if b[from] == c {
        from
    } else {
        find_byte(b, from + 1, to, c)
    }
}

/// The first position `i` in `from..to` where `b[i] == c1` and `b[i + 1] == c2` (both
/// below `to`), or `to`.
pub open spec fn find_pair(b: Seq<u8>, from: int, to: int, c1: u8, c2: u8) -> int
    decreases to - from,
{
    if from + 1 >= to {
        to
    } else if b[from] == c1 && b[from + 1] == c2 {
        from
    } else {
        find_pair(b, from + 1, to, c1, c2)
    }
}

/// The first position in `from..to` holding an ASCII whitespace byte, or `to`.
pub open spec fn find_ascii_ws(b: Seq<u8>, from: int, to: int) -> int
    decreases to - from,
{
    if from >= to {
        to
    } else if is_ascii_ws(b[from]) {
        from
    } else {
        find_ascii_ws(b, from + 1, to)
    }
}

pub proof fn lemma_find_byte_range(b: Seq<u8>, from: int, to: int, c: u8)
    requires
        from <= to,
    ensures
        from <= find_byte(b, from, to, c) <= to,
        find_byte(b, from, to, c) < to ==> b[find_byte(b, from, to, c)] == c,
        forall|k: int| from <= k < find_byte(b, from, to, c) ==> b[k] != c,
    decreases to - from,
{
    if from < to && b[from] != c {
        lemma_find_byte_range(b, from + 1, to, c);
    }
}

pub proof fn lemma_find_pair_range(b: Seq<u8>, from: int, to: int, c1: u8, c2: u8)
    requires
        from <= to,
    ensures
        from <= find_pair(b, from, to, c1, c2) <= to,
        find_pair(b, from, to, c1, c2) < to ==> find_pair(b, from, to, c1, c2) + 1 < to && b[find_pair(b, from, to, c1, c2)] == c1
            && b[find_pair(b, from, to, c1, c2) + 1] == c2,
    decreases to - from,
{
    if from + 1 < to && !(b[from] == c1 && b[from + 1] == c2) {
        lemma_find_pair_range(b, from + 1, to, c1, c2);
    }
}

pub proof fn lemma_find_ascii_ws_range(b: Seq<u8>, from: int, to: int)
    requires
        from <= to,
    ensures
        from <= find_ascii_ws(b, from, to) <= to,
        find_ascii_ws(b, from, to) < to ==> is_ascii_ws(b[find_ascii_ws(b, from, to)]),
        forall|k: int| from <= k < find_ascii_ws(b, from, to) ==> !is_ascii_ws(b[k]),
    decreases to - from,
{
    if from < to && !is_ascii_ws(b[from]) {
        lemma_find_ascii_ws_range(b, from + 1, to);
    }
}

/// The first position in `from..to` holding `c`, or `to`.
pub fn find_byte_exec(b: &[u8], from: usize, to: usize, c: u8) -> (r: usize)
    requires
        from <= to <= b@.len(),
    ensures
        r == find_byte(b@, from as int, to as int, c),
        from <= r <= to,
        r < to ==> b@[r as int] == c,
{
    proof {
        lemma_find_byte_range(b@, from as int, to as int, c);
    }
    let mut i: usize = from;
    while i < to
        invariant
            from <= i <= to <= b@.len(),
            find_byte(b@, from as int, to as int, c) == find_byte(b@, i as int, to as int, c),
        decreases to - i,
    {
        if b[i] == c {
            return i;
        }
        i = i + 1;
    }
    i
}

/// The first position `i` in `from..to` with `b[i] == c1` and `b[i + 1] == c2`, or `to`.
pub fn find_pair_exec(b: &[u8], from: usize, to: usize, c1: u8, c2: u8) -> (r: usize)
    requires
        from <= to <= b@.len(),
    ensures
        r == find_pair(b@, from as int, to as int, c1, c2),
        from <= r <= to,
        r < to ==> r + 1 < to && b@[r as int] == c1 && b@[r + 1] == c2,
{
    proof {
        lemma_find_pair_range(b@, from as int, to as int, c1, c2);
    }
    let mut i: usize = from;
    while to - i > 1
        invariant
            from <= i <= to <= b@.len(),
            find_pair(b@, from as int, to as int, c1, c2) == find_pair(b@, i as int, to as int, c1, c2),
        decreases to - i,
    {
        if b[i] == c1 && b[i + 1] == c2 {
            return i;
        }
        i = i + 1;
    }
    to
}

/// The first position in `from..to` holding an ASCII whitespace byte, or `to`.
pub fn find_ascii_ws_exec(b: &[u8], from: usize, to: usize) -> (r: usize)
    requires
        from <= to <= b@.len(),
    ensures
        r == find_ascii_ws(b@, from as int, to as int),
        from <= r <= to,
{
    proof {
        lemma_find_ascii_ws_range(b@, from as int, to as int);
    }
    let mut i: usize = from;
    while i < to
        invariant
            from <= i <= to <= b@.len(),
            find_ascii_ws(b@, from as int, to as int) == find_ascii_ws(b@, i as int, to as int),
        decreases to - i,
    {
        let c: u8 = b[i];
        if c == 0x20 || c == 0x09 || c == 0x0a || c == 0x0c || c == 0x0d {
            return i;
        }
        i = i + 1;
    }
    i
}

fn ws_len_at_exec(b: &[u8], i: usize, e: usize) -> (r: usize)
    requires
        i <= e <= b@.len(),
    ensures
        r == ws_len_at(b@, i as int, e as int),
{
    if i < e && (b[i] == 0x20 || (0x09 <= b[i] && b[i] <= 0x0d)) {
        1
    } else if i < e && e - i > 1 && b[i] == 0xc2 && (b[i + 1] == 0x85 || b[i + 1] == 0xa0) {
        2
    } else if i < e && e - i > 2 && is_ws3_exec(b[i], b[i + 1], b[i + 2]) {
        3
    } else {
        0
    }
}

fn is_ws3_exec(x: u8, y: u8, z: u8) -> (r: bool)
    ensures
        r == is_ws3(x, y, z),
{
    (x == 0xe1 && y == 0x9a && z == 0x80) || (x == 0xe2 && y == 0x80 && ((0x80 <= z && z <= 0x8a)
        || z == 0xa8 || z == 0xa9 || z == 0xaf)) || (x == 0xe2 && y == 0x81 && z == 0x9f) || (x
        == 0xe3 && y == 0x80 && z == 0x80)
}

fn ws_len_before_exec(b: &[u8], s: usize, j: usize) -> (r: usize)
    requires
        s <= j <= b@.len(),
    ensures
        r == ws_len_before(b@, s as int, j as int),
{
    if s < j && (b[j - 1] == 0x20 || (0x09 <= b[j - 1] && b[j - 1] <= 0x0d)) {
        1
    } else if s < j && j - s > 1 && b[j - 2] == 0xc2 && (b[j - 1] == 0x85 || b[j - 1] == 0xa0) {
        2
    } else if s < j && j - s > 2 && is_ws3_exec(b[j - 3], b[j - 2], b[j - 1]) {
        3
    } else {
        0
    }
}

/// Removes leading and trailing Unicode whitespace from `b[s..e]`, returning the new bounds.
///
/// When `s` and `e` start characters of valid UTF-8, so do the results.
pub fn trim_exec(b: &[u8], s: usize, e: usize) -> (r: (usize, usize))
    requires
        s <= e <= b@.len(),
    ensures
        r.0 == trim_start(b@, s as int, e as int),
        r.1 == trim_end(b@, r.0 as int, e as int),
        s <= r.0 <= r.1 <= e,
        valid_utf8(b@) && starts_char(b@, s as int) && starts_char(b@, e as int) ==> starts_char(
            b@,
            r.0 as int,
        ) && starts_char(b@, r.1 as int),
{
    let mut i: usize = s;
    let mut w: usize = ws_len_at_exec(b, i, e);
    while w > 0
        invariant
            s <= i <= e <= b@.len(),
            w == ws_len_at(b@, i as int, e as int),
            trim_start(b@, s as int, e as int) == trim_start(b@, i as int, e as int),
            valid_utf8(b@) && starts_char(b@, s as int) ==> starts_char(b@, i as int),
        decreases e - i,
    {
        proof {
            if valid_utf8(b@) && starts_char(b@, s as int) {
                lemma_next_char(b@, i as int);
            }
        }
        i = i + w;
        w = ws_len_at_exec(b, i, e);
    }
    let mut j: usize = e;
    let mut w: usize = ws_len_before_exec(b, i, j);
    while w > 0
        invariant
            s <= i <= j <= e <= b@.len(),
            w == ws_len_before(b@, i as int, j as int),
            trim_end(b@, i as int, e as int) == trim_end(b@, i as int, j as int),
            starts_char(b@, e as int) ==> starts_char(b@, j as int),
        decreases j - i,
    {
        j = j - w;
        w = ws_len_before_exec(b, i, j);
    }
    (i, j)
}


/// The first position in `from..to` that does not hold ASCII whitespace, or `to`.
pub open spec fn skip_ascii_ws(b: Seq<u8>, from: int, to: int) -> int
    decreases to - from,
{
    if from >= to {
        to
    } else if is_ascii_ws(b[from]) {
        skip_ascii_ws(b, from + 1, to)
    } else {
        from
    }
}

pub proof fn lemma_skip_ascii_ws_range(b: Seq<u8>, from: int, to: int)
    requires
        from <= to,
    ensures
        from <= skip_ascii_ws(b, from, to) <= to,
        skip_ascii_ws(b, from, to) < to ==> !is_ascii_ws(b[skip_ascii_ws(b, from, to)]),
        forall|k: int| from <= k < skip_ascii_ws(b, from, to) ==> is_ascii_ws(b[k]),
    decreases to - from,
{
    if from < to && is_ascii_ws(b[from]) {
        lemma_skip_ascii_ws_range(b, from + 1, to);
    }
}

/// The first position in `from..to` that does not hold ASCII whitespace, or `to`.
pub fn skip_ascii_ws_exec(b: &[u8], from: usize, to: usize) -> (r: usize)
    requires
        from <= to <= b@.len(),
    ensures
        r == skip_ascii_ws(b@, from as int, to as int),
        from <= r <= to,
{
    proof {
        lemma_skip_ascii_ws_range(b@, from as int, to as int);
    }
    let mut i: usize = from;
    while i < to
        invariant
            from <= i <= to <= b@.len(),
            skip_ascii_ws(b@, from as int, to as int) == skip_ascii_ws(b@, i as int, to as int),
        decreases to - i,
    {
        let c: u8 = b[i];
        if !(c == 0x20 || c == 0x09 || c == 0x0a || c == 0x0c || c == 0x0d) {
            return i;
        }
        i = i + 1;
    }
    i
}

/// Whether `a` and `b` hold the same bytes.
pub fn bytes_eq(a: &[u8], b: &[u8]) -> (r: bool)
    ensures
        r == (a@ == b@),
{
    if a.len() != b.len() {
        return false;
    }
    let mut i: usize = 0;
    while i < a.len()
        invariant
            a@.len() == b@.len(),
            0 <= i <= a@.len(),
            forall|k: int| 0 <= k < i ==> a@[k] == b@[k],
        decreases a@.len() - i,
    {
        if a[i] != b[i] {
            return false;
        }
        i = i + 1;
    }
    assert(a@ =~= b@);
    true
}

/// Whether `a` and `b` are the same string.
pub fn str_eq(a: &str, b: &str) -> (r: bool)
    ensures
        r == (a.spec_bytes() == b.spec_bytes()),
        r == (a@ == b@),
{
    proof {
        encode_utf8_decode_utf8(a@);
        encode_utf8_decode_utf8(b@);
    }
    bytes_eq(a.as_bytes(), b.as_bytes())
}


/// The `n`-th (from zero) non-empty run of non-whitespace bytes in `b[from..to]`, where
/// runs are separated by ASCII whitespace.
pub open spec fn nth_token(b: Seq<u8>, from: int, to: int, n: nat) -> Option<(int, int)>
    decreases n,
{
    let s = skip_ascii_ws(b, from, to);
    if s >= to {
        None
    } else if n == 0 {
        Some((s, find_ascii_ws(b, s, to)))
    } else {
        nth_token(b, find_ascii_ws(b, s, to), to, (n - 1) as nat)
    }
}

/// The `n`-th (from zero) field of `b[from..to]`, where every single ASCII whitespace byte
/// separates two fields (so fields may be empty).
pub open spec fn nth_field(b: Seq<u8>, from: int, to: int, n: nat) -> Option<(int, int)>
    decreases n,
{
    let j = find_ascii_ws(b, from, to);
    if n == 0 {
        Some((from, j))
    } else if j >= to {
        None
    } else {
        nth_field(b, j + 1, to, (n - 1) as nat)
    }
}

/// The `n`-th non-empty whitespace-separated run in `b[from..to]`.
pub fn nth_token_exec(b: &[u8], from: usize, to: usize, n: usize) -> (r: Option<(usize, usize)>)
    requires
        from <= to <= b@.len(),
    ensures
        match nth_token(b@, from as int, to as int, n as nat) {
            Some((s, e)) => r == Some((s as usize, e as usize)) && from <= s <= e <= to,
            None => r is None,
        },
        r matches Some((s, e)) ==> from <= s <= e <= to,
        r matches Some((s, e)) ==> (valid_utf8(b@) && starts_char(b@, from as int) && starts_char(
            b@,
            to as int,
        ) ==> starts_char(b@, s as int) && starts_char(b@, e as int)),
{
    let mut pos: usize = from;
    let mut k: usize = n;
    loop
        invariant
            from <= pos <= to <= b@.len(),
            k <= n,
            nth_token(b@, from as int, to as int, n as nat) == nth_token(
                b@,
                pos as int,
                to as int,
                k as nat,
            ),
            valid_utf8(b@) && starts_char(b@, from as int) && starts_char(b@, to as int)
                ==> starts_char(b@, pos as int),
        decreases to - pos,
    {
        let s: usize = skip_ascii_ws_exec(b, pos, to);
        proof {
            lemma_skip_ascii_ws_range(b@, pos as int, to as int);
        }
        if s >= to {
            return None;
        }
        let t: usize = find_ascii_ws_exec(b, s, to);
        proof {
            lemma_find_ascii_ws_range(b@, s as int, to as int);
            if valid_utf8(b@) && starts_char(b@, from as int) && starts_char(b@, to as int) && s > pos {
                lemma_next_char(b@, s - 1);
            }
        }
        if k == 0 {
            return Some((s, t));
        }
        k = k - 1;
        pos = t;
    }
}

/// The `n`-th field of `b[from..to]` separated by single ASCII whitespace bytes.
pub fn nth_field_exec(b: &[u8], from: usize, to: usize, n: usize) -> (r: Option<(usize, usize)>)
    requires
        from <= to <= b@.len(),
    ensures
        match nth_field(b@, from as int, to as int, n as nat) {
            Some((s, e)) => r == Some((s as usize, e as usize)) && from <= s <= e <= to,
            None => r is None,
        },
        r matches Some((s, e)) ==> from <= s <= e <= to,
        r matches Some((s, e)) ==> (valid_utf8(b@) && starts_char(b@, from as int) && starts_char(
            b@,
            to as int,
        ) ==> starts_char(b@, s as int) && starts_char(b@, e as int)),
{
    let mut pos: usize = from;
    let mut k: usize = n;
    loop
        invariant
            from <= pos <= to <= b@.len(),
            k <= n,
            nth_field(b@, from as int, to as int, n as nat) == nth_field(
                b@,
                pos as int,
                to as int,
                k as nat,
            ),
            valid_utf8(b@) && starts_char(b@, from as int) && starts_char(b@, to as int)
                ==> starts_char(b@, pos as int),
        decreases to - pos,
    {
        let j: usize = find_ascii_ws_exec(b, pos, to);
        proof {
            lemma_find_ascii_ws_range(b@, pos as int, to as int);
        }
        if k == 0 {
            return Some((pos, j));
        }
        if j >= to {
            return None;
        }
        proof {
            if valid_utf8(b@) && starts_char(b@, from as int) {
                lemma_next_char(b@, j as int);
            }
        }
        k = k - 1;
        pos = j + 1;
    }
}

} // verus!

verus! {

/// The first position in `from..to` where a whitespace character starts, or `to`.
pub open spec fn find_ws(b: Seq<u8>, from: int, to: int) -> int
    decreases to - from,
{
    if from >= to {
        to
    } else if ws_len_at(b, from, to) > 0 {
        from
    } else {
        find_ws(b, from + 1, to)
    }
}

pub proof fn lemma_find_ws_range(b: Seq<u8>, from: int, to: int)
    requires
        from <= to,
    ensures
        from <= find_ws(b, from, to) <= to,
        find_ws(b, from, to) < to ==> ws_len_at(b, find_ws(b, from, to), to) > 0,
    decreases to - from,
{
    if from < to && ws_len_at(b, from, to) == 0 {
        lemma_find_ws_range(b, from + 1, to);
    }
}

/// A whitespace character found in valid UTF-8 starts a character, and so does what follows it.
pub proof fn lemma_ws_char(b: Seq<u8>, i: int, e: int)
    requires
        valid_utf8(b),
        0 <= i,
        e <= b.len(),
        ws_len_at(b, i, e) > 0,
    ensures
        starts_char(b, i),
        starts_char(b, i + ws_len_at(b, i, e)),
        i + ws_len_at(b, i, e) <= e,
{
    assert(!is_continuation_byte(b[i]));
    lemma_next_char(b, i);
}

/// The first position in `from..to` where a whitespace character starts, or `to`.
pub fn find_ws_exec(b: &[u8], from: usize, to: usize) -> (r: usize)
    requires
        from <= to <= b@.len(),
    ensures
        r == find_ws(b@, from as int, to as int),
        from <= r <= to,
{
    proof {
        lemma_find_ws_range(b@, from as int, to as int);
    }
    let mut i: usize = from;
    while i < to
        invariant
            from <= i <= to <= b@.len(),
            find_ws(b@, from as int, to as int) == find_ws(b@, i as int, to as int),
        decreases to - i,
    {
        if ws_len_at_exec(b, i, to) > 0 {
            return i;
        }
        i = i + 1;
    }
    i
}

/// The byte length of the whitespace character that starts at `i` and ends by `e`, or 0.
pub fn ws_len(b: &[u8], i: usize, e: usize) -> (r: usize)
    requires
        i <= e <= b@.len(),
    ensures
        r == ws_len_at(b@, i as int, e as int),
{
    ws_len_at_exec(b, i, e)
}

/// `0` to `9`
pub open spec fn is_digit(c: u8) -> bool {
    0x30 <= c <= 0x39
}

/// The number written by the decimal digits `d`.
pub open spec fn digits_value(d: Seq<u8>) -> nat
    decreases d.len(),
{
    if d.len() == 0 {
        0
    } else {
        digits_value(d.drop_last()) * 10 + (d.last() - 0x30) as nat
    }
}

/// The digits of `s`, after one optional leading `+`.
pub open spec fn unsigned_digits(s: Seq<u8>) -> Seq<u8> {
    if s.len() > 0 && s[0] == 0x2b {
        s.drop_first()
    } else {
        s
    }
}

/// What `usize::from_str` gives for `s`: an optional `+`, then one or more decimal digits
/// whose value fits in a `usize`.
pub open spec fn spec_parse_usize(s: Seq<u8>) -> Option<usize> {
    let d = unsigned_digits(s);
    if d.len() > 0 && (forall|i: int| 0 <= i < d.len() ==> is_digit(#[trigger] d[i])) && digits_value(d)
        <= usize::MAX {
        Some(digits_value(d) as usize)
    } else {
        None
    }
}

proof fn lemma_digits_value_grows(d: Seq<u8>, i: int, j: int)
    requires
        0 <= i <= j <= d.len(),
        forall|k: int| 0 <= k < d.len() ==> is_digit(#[trigger] d[k]),
    ensures
        digits_value(d.take(i)) <= digits_value(d.take(j)),
    decreases j - i,
{
    if i < j {
        lemma_digits_value_grows(d, i, j - 1);
        assert(d.take(j).drop_last() =~= d.take(j - 1));
    }
}

/// Parses the bytes of `s` as a `usize`, as `usize::from_str` does.
pub fn parse_usize(s: &[u8]) -> (r: Option<usize>)
    ensures
        r == spec_parse_usize(s@),
{
    let start: usize = if s.len() > 0 && s[0] == 0x2b { 1 } else { 0 };
    let ghost d = unsigned_digits(s@);
    assert(d =~= s@.skip(start as int));
    if start >= s.len() {
        return None;
    }
    let mut value: usize = 0;
    let mut i: usize = start;
    while i < s.len()
        invariant
            start <= i <= s@.len(),
            d == s@.skip(start as int),
            d == unsigned_digits(s@),
            forall|k: int| 0 <= k < i - start ==> is_digit(#[trigger] d[k]),
            value == digits_value(d.take(i - start)),
        decreases s@.len() - i,
    {
        let c = s[i];
        if c < 0x30 || c > 0x39 {
            assert(!is_digit(d[i - start]));
            assert(!(forall|k: int| 0 <= k < d.len() ==> is_digit(#[trigger] d[k])));
            return None;
        }
        let ghost before = d.take(i - start);
        assert(d.take(i - start + 1).drop_last() =~= before);
        assert(d.take(i - start + 1).last() == c);
        assert(digits_value(d.take(i - start + 1)) == value * 10 + (c - 0x30) as nat);
        match value.checked_mul(10) {
            None => {
                proof {
                    assert(forall|k: int| 0 <= k < i - start + 1 ==> is_digit(#[trigger] d[k]));
                    let ghost t = d.take(i - start + 1);
                    assert(forall|k: int| 0 <= k < t.len() ==> is_digit(#[trigger] t[k]));
                    if forall|k: int| 0 <= k < d.len() ==> is_digit(#[trigger] d[k]) {
                        lemma_digits_value_grows(d, i - start + 1, d.len() as int);
                        assert(d.take(d.len() as int) =~= d);
                    }
                }
                return None;
            },
            Some(m) => {
                match m.checked_add((c - 0x30) as usize) {
                    None => {
                        proof {
                            if forall|k: int| 0 <= k < d.len() ==> is_digit(#[trigger] d[k]) {
                                lemma_digits_value_grows(d, i - start + 1, d.len() as int);
                                assert(d.take(d.len() as int) =~= d);
                            }
                        }
                        return None;
                    },
                    Some(v) => {
                        value = v;
                    },
                }
            },
        }
        i = i + 1;
    }
    assert(d.take(i - start) =~= d);
    Some(value)
}

} // verus!

verus! {

/// Encoding two strings one after the other gives the encoding of the joined string.
pub proof fn lemma_encode_utf8_concat(a: Seq<char>, b: Seq<char>)
    ensures
        encode_utf8(a + b) == encode_utf8(a) + encode_utf8(b),
    decreases a.len(),
{
    if a.len() == 0 {
        assert(a + b =~= b);
        assert(encode_utf8(a) + encode_utf8(b) =~= encode_utf8(b));
    } else {
        lemma_encode_utf8_concat(a.drop_first(), b);
        assert((a + b).drop_first() =~= a.drop_first() + b);
        assert((a + b)[0] == a[0]);
        assert(encode_utf8(a + b) =~= encode_utf8(a) + encode_utf8(b));
    }
}

} // verus!

verus! {

/// The first `c1 c2` pair is at or before any position that holds one.
pub proof fn lemma_find_pair_le(b: Seq<u8>, from: int, to: int, c1: u8, c2: u8, i: int)
    requires
        from <= i,
        i + 1 < to,
        b[i] == c1,
        b[i + 1] == c2,
    ensures
        find_pair(b, from, to, c1, c2) <= i,
    decreases i - from,
{
    if from < i && !(b[from] == c1 && b[from + 1] == c2) {
        lemma_find_pair_le(b, from + 1, to, c1, c2, i);
    }
}

} // verus!

verus! {

/// `b[from..to]` is words separated by single ASCII whitespace bytes, with none at either end.
pub open spec fn singly_spaced(b: Seq<u8>, from: int, to: int) -> bool {
    &&& 0 <= from < to <= b.len()
    &&& !is_ascii_ws(b[from])
    &&& !is_ascii_ws(b[to - 1])
    &&& forall|k: int| #![trigger b[k]] from <= k < to - 1 && is_ascii_ws(b[k]) ==> !is_ascii_ws(b[k + 1])
}

/// On singly spaced text the `n`-th run of non-whitespace is the `n`-th field between
/// whitespace bytes, and it lies within the text.
pub proof fn lemma_tokens_are_fields(b: Seq<u8>, from: int, to: int, n: nat)
    requires
        singly_spaced(b, from, to),
    ensures
        nth_token(b, from, to, n) == nth_field(b, from, to, n),
        nth_field(b, from, to, n) matches Some((s, e)) ==> from <= s <= e <= to,
    decreases n,
{
    lemma_find_ascii_ws_range(b, from, to);
    let j = find_ascii_ws(b, from, to);
    assert(skip_ascii_ws(b, from, to) == from);
    if n > 0 && j < to {
        assert(is_ascii_ws(b[j]));
        assert(j < to - 1);
        assert(!is_ascii_ws(b[j + 1]));
        assert(skip_ascii_ws(b, j + 1, to) == j + 1);
        assert(skip_ascii_ws(b, j, to) == j + 1);
        assert(singly_spaced(b, j + 1, to));
        lemma_tokens_are_fields(b, j + 1, to, (n - 1) as nat);
        assert(nth_token(b, j, to, (n - 1) as nat) == nth_token(b, j + 1, to, (n - 1) as nat));
    } else if n > 0 {
        assert(skip_ascii_ws(b, j, to) == to);
    }
}

} // verus!
