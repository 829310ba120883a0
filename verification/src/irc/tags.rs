//! Twitch message tags: `key=value` pairs separated by `;`.
use vstd::prelude::*;
use vstd::utf8::valid_utf8;
use vstd::string::StringSliceAdditionalSpecFns;
use crate::maybe_owned::{MaybeOwnedIndex, spec_index};
use crate::text::{find_byte, find_byte_exec, lemma_find_byte_range, starts_char, slice_str, bytes_eq, lemma_next_char};

verus! {

broadcast use vstd::string::group_string_axioms, vstd::utf8::encode_utf8_valid_utf8;

/// `;`
pub const SEMI: u8 = 0x3b;

/// `=`
pub const EQUALS: u8 = 0x3d;

/// The `key=value` fields of the tags in `b[s..e]`, in order: each `;`-separated part that
/// holds an `=`, split at its first `=`. Parts without `=` are skipped.
pub open spec fn tag_fields(b: Seq<u8>, s: int, e: int) -> Seq<(MaybeOwnedIndex, MaybeOwnedIndex)>
    decreases e - s,
{
    if s >= e {
        Seq::empty()
    } else {
        proof {
            lemma_find_byte_range(b, s, e, SEMI);
        }
        let semi = find_byte(b, s, e, SEMI);
        let eq = find_byte(b, s, semi, EQUALS);
        let rest = if semi < e {
            tag_fields(b, semi + 1, e)
        } else {
            Seq::empty()
        };
        if eq < semi {
            seq![(spec_index(s, eq), spec_index(eq + 1, semi))] + rest
        } else {
            rest
        }
    }
}

/// Every key and value lies within `b` on character boundaries.
pub open spec fn fields_valid_in(fields: Seq<(MaybeOwnedIndex, MaybeOwnedIndex)>, b: Seq<u8>) -> bool {
    forall|i: int| 0 <= i < fields.len() ==> (#[trigger] fields[i]).0.valid_in(b) && fields[i].1.valid_in(b)
}

/// The value of the first field of `fields` whose key is `key`.
pub open spec fn tag_lookup(fields: Seq<(MaybeOwnedIndex, MaybeOwnedIndex)>, b: Seq<u8>, key: Seq<u8>) -> Option<MaybeOwnedIndex>
    decreases fields.len(),
{
    if fields.len() == 0 {
        None
    } else if fields[0].0.bytes_of(b) == key {
        Some(fields[0].1)
    } else {
        tag_lookup(fields.drop_first(), b, key)
    }
}

proof fn lemma_tag_lookup_in(fields: Seq<(MaybeOwnedIndex, MaybeOwnedIndex)>, b: Seq<u8>, key: Seq<u8>)
    ensures
        tag_lookup(fields, b, key) matches Some(v) ==> exists|i: int| 0 <= i < fields.len() && (#[trigger] fields[i]).1 == v,
    decreases fields.len(),
{
    if fields.len() > 0 && fields[0].0.bytes_of(b) != key {
        lemma_tag_lookup_in(fields.drop_first(), b, key);
        if tag_lookup(fields, b, key) is Some {
            let i = choose|i: int| 0 <= i < fields.drop_first().len() && (#[trigger] fields.drop_first()[i]).1 == tag_lookup(fields, b, key)->0;
            assert(fields[i + 1] == fields.drop_first()[i]);
        }
    } else if fields.len() > 0 {
        assert(fields[0].1 == fields[0].1);
    }
}

/// The positions of the keys and values of a message's tags.
#[derive(Debug, PartialEq, Eq)]
pub struct TagIndices {
    pub(crate) map: Vec<(MaybeOwnedIndex, MaybeOwnedIndex)>,
}

impl Clone for TagIndices {
    fn clone(&self) -> (r: Self)
        ensures
            r.spec_fields() == self.spec_fields(),
    {
        let mut map: Vec<(MaybeOwnedIndex, MaybeOwnedIndex)> = Vec::new();
        let mut i: usize = 0;
        while i < self.map.len()
            invariant
                i <= self.map@.len(),
                map@ == self.map@.take(i as int),
            decreases self.map@.len() - i,
        {
            let (k, v) = self.map[i];
            map.push((k, v));
            assert(map@ =~= self.map@.take(i + 1));
            i = i + 1;
        }
        assert(map@ =~= self.map@);
        TagIndices { map }
    }
}

impl TagIndices {
    /// The `(key, value)` positions, in order.
    pub closed spec fn spec_fields(self) -> Seq<(MaybeOwnedIndex, MaybeOwnedIndex)> {
        self.map@
    }

    /// No tags.
    pub fn empty() -> (r: Self)
        ensures
            r.spec_fields() == Seq::<(MaybeOwnedIndex, MaybeOwnedIndex)>::empty(),
    {
        TagIndices { map: Vec::new() }
    }

    /// The fields of the tags in `b[s..e]`.
    pub fn build(b: &[u8], s: usize, e: usize) -> (r: Self)
        requires
            valid_utf8(b@),
            b@.len() <= u16::MAX,
            s <= e <= b@.len(),
            starts_char(b@, s as int),
            starts_char(b@, e as int),
        ensures
            r.spec_fields() == tag_fields(b@, s as int, e as int),
            fields_valid_in(r.spec_fields(), b@),
    {
        let mut map: Vec<(MaybeOwnedIndex, MaybeOwnedIndex)> = Vec::new();
        let mut pos: usize = s;
        while pos < e
            invariant
                valid_utf8(b@),
                s <= pos <= e <= b@.len(),
                b@.len() <= u16::MAX,
                starts_char(b@, pos as int),
                starts_char(b@, e as int),
                map@ + tag_fields(b@, pos as int, e as int) == tag_fields(b@, s as int, e as int),
                fields_valid_in(map@, b@),
            decreases e - pos,
        {
            proof {
                lemma_find_byte_range(b@, pos as int, e as int, SEMI);
            }
            let semi = find_byte_exec(b, pos, e, SEMI);
            proof {
                lemma_find_byte_range(b@, pos as int, semi as int, EQUALS);
            }
            let eq = find_byte_exec(b, pos, semi, EQUALS);
            let ghost rest = if semi < e {
                tag_fields(b@, semi + 1, e as int)
            } else {
                Seq::empty()
            };
            if eq < semi {
                let field = (MaybeOwnedIndex::raw(pos, eq), MaybeOwnedIndex::raw(eq + 1, semi));
                proof {
                    lemma_next_char(b@, eq as int);
                }
                let ghost before = map@;
                map.push(field);
                assert(map@ + rest =~= before + (seq![field] + rest));
            } else {
                assert(map@ + rest =~= map@ + rest);
            }
            if semi < e {
                proof {
                    lemma_next_char(b@, semi as int);
                }
                pos = semi + 1;
            } else {
                assert(tag_fields(b@, e as int, e as int) =~= Seq::<(MaybeOwnedIndex, MaybeOwnedIndex)>::empty());
                assert(map@ + tag_fields(b@, e as int, e as int) =~= map@ + rest);
                pos = e;
            }
        }
        assert(map@ + tag_fields(b@, pos as int, e as int) =~= map@);
        TagIndices { map }
    }

    /// The value of the first field whose key is `key`, in the string `data` the tags were built from.
    pub fn lookup(&self, data: &[u8], key: &[u8]) -> (r: Option<MaybeOwnedIndex>)
        requires
            fields_valid_in(self.spec_fields(), data@),
        ensures
            r == tag_lookup(self.spec_fields(), data@, key@),
            r matches Some(v) ==> v.valid_in(data@),
    {
        let mut i: usize = 0;
        assert(self.map@.skip(0) =~= self.map@);
        while i < self.map.len()
            invariant
                i <= self.map@.len(),
                fields_valid_in(self.map@, data@),
                tag_lookup(self.map@, data@, key@) == tag_lookup(self.map@.skip(i as int), data@, key@),
            decreases self.map@.len() - i,
        {
            let (k, v) = self.map[i];
            assert(self.map@.skip(i as int)[0] == self.map@[i as int]);
            assert(self.map@.skip(i as int).drop_first() =~= self.map@.skip(i + 1));
            assert(k.valid_in(data@));
            let kb = slice_bytes(data, k);
            if bytes_eq(kb, key) {
                return Some(v);
            }
            i = i + 1;
        }
        assert(self.map@.skip(i as int).len() == 0);
        None
    }
}

/// The bytes of `data` covered by `index`.
fn slice_bytes(data: &[u8], index: MaybeOwnedIndex) -> (r: &[u8])
    requires
        index.start <= index.end <= data@.len(),
    ensures
        r@ == index.bytes_of(data@),
{
    let (a, _) = data.split_at(index.end as usize);
    let (_, c) = a.split_at(index.start as usize);
    assert(c@ =~= index.bytes_of(data@));
    c
}

/// The tags of a message, with the string they index into.
#[derive(Copy, Clone, Debug)]
pub struct Tags<'a> {
    data: &'a str,
    indices: &'a TagIndices,
}

impl<'a> Tags<'a> {
    #[verifier::type_invariant]
    spec fn inv(self) -> bool {
        fields_valid_in(self.indices.spec_fields(), self.data.spec_bytes())
    }

    /// The string the tags index into.
    pub closed spec fn spec_data(self) -> Seq<u8> {
        self.data.spec_bytes()
    }

    /// The positions of the fields.
    pub closed spec fn spec_fields(self) -> Seq<(MaybeOwnedIndex, MaybeOwnedIndex)> {
        self.indices.spec_fields()
    }

    /// The tags of `data` at `indices`.
    pub fn from_data(data: &'a str, indices: &'a TagIndices) -> (r: Self)
        requires
            fields_valid_in(indices.spec_fields(), data.spec_bytes()),
        ensures
            r.spec_data() == data.spec_bytes(),
            r.spec_fields() == indices.spec_fields(),
    {
        Tags { data, indices }
    }

    /// The value of the first tag named `key`.
    pub fn get(&self, key: &str) -> (r: Option<&'a str>)
        ensures
            match tag_lookup(self.spec_fields(), self.spec_data(), key.spec_bytes()) {
                Some(v) => r matches Some(s) && s.spec_bytes() == v.bytes_of(self.spec_data()),
                None => r is None,
            },
    {
        proof {
            use_type_invariant(self);
        }
        match self.indices.lookup(self.data.as_bytes(), key.as_bytes()) {
            Some(v) => Some(slice_str(self.data, v.start as usize, v.end as usize)),
            None => None,
        }
    }

    /// Whether the tag named `key` is present with the value `1`.
    pub fn get_as_bool(&self, key: &str) -> (r: bool)
        ensures
            r == (tag_lookup(self.spec_fields(), self.spec_data(), key.spec_bytes()) matches Some(v)
                && v.bytes_of(self.spec_data()) == "1".spec_bytes()),
    {
        match self.get(key) {
            Some(v) => bytes_eq(v.as_bytes(), "1".as_bytes()),
            None => false,
        }
    }
}

} // verus!

verus! {

/// The part `k=v` that starts at `p` (at `s` or right after a `;`) and whose key appears in no
/// earlier part of `b[s..e]` is what looking up `k` finds.
proof fn lemma_part_is_found(b: Seq<u8>, s: int, e: int, p: int, q: int, k: Seq<u8>, v: Seq<u8>, at: int)
    requires
        0 <= s <= p <= at,
        at + 1 + k.len() + v.len() <= e <= b.len() <= u16::MAX,
        p == s || b[p - 1] == SEMI,
        at == s || b[at - 1] == SEMI,
        p < at ==> b[at - 1] == SEMI,
        b.subrange(at, at + k.len() as int) == k,
        b[at + k.len()] == EQUALS,
        b.subrange(at + k.len() + 1, at + k.len() + 1 + v.len()) == v,
        q == at + k.len() + 1 + v.len(),
        q == e || b[q] == SEMI,
        forall|i: int| 0 <= i < k.len() ==> k[i] != SEMI && k[i] != EQUALS,
        forall|i: int| 0 <= i < v.len() ==> v[i] != SEMI,
        forall|i: int|
            p <= i && i + k.len() < at && (i == s || b[i - 1] == SEMI)
                ==> !(b.subrange(i, i + k.len()) == k && #[trigger] b[i + k.len()] == EQUALS),
    ensures
        tag_lookup(tag_fields(b, p, e), b, k) == Some(spec_index(at + k.len() + 1, q)),
    decreases at - p,
{
    lemma_find_byte_range(b, p, e, SEMI);
    let semi = find_byte(b, p, e, SEMI);
    if p == at {
        assert forall|i: int| at <= i < q implies b[i] != SEMI by {
            if i < at + k.len() {
                assert(b[i] == b.subrange(at, at + k.len() as int)[i - at]);
            } else if i > at + k.len() {
                assert(b[i] == b.subrange(at + k.len() + 1, q)[i - at - k.len() - 1]);
            }
        }
        assert(semi == q);
        lemma_find_byte_range(b, p, semi, EQUALS);
        assert forall|i: int| at <= i < at + k.len() implies b[i] != EQUALS by {
            assert(b[i] == b.subrange(at, at + k.len() as int)[i - at]);
        }
        let eq = find_byte(b, p, semi, EQUALS);
        assert(eq == at + k.len());
        let f = tag_fields(b, p, e);
        assert(f[0] == (spec_index(at, eq), spec_index(eq + 1, semi)));
        assert(f[0].0.bytes_of(b) == k);
    } else {
        assert(semi < at);
        lemma_find_byte_range(b, p, semi, EQUALS);
        let eq = find_byte(b, p, semi, EQUALS);
        let rest = tag_fields(b, semi + 1, e);
        lemma_part_is_found(b, s, e, semi + 1, q, k, v, at);
        if eq < semi {
            let f = tag_fields(b, p, e);
            assert(f == seq![(spec_index(p, eq), spec_index(eq + 1, semi))] + rest);
            if f[0].0.bytes_of(b) == k {
                assert(eq == p + k.len());
                assert(b.subrange(p, p + k.len()) == k);
                assert(b[p + k.len()] == EQUALS);
                assert(p == s || b[p - 1] == SEMI);
                assert(false);
            }
            assert(f.drop_first() =~= rest);
        }
    }
}

/// Every `;`-separated part `k=v` of the tags is found by looking up its key: whatever the
/// parts before and after it hold, as long as none before it has the same key, the value
/// found for `k` is `v`. (A key holds no `;` or `=`, a value no `;`.)
pub proof fn tag_part_is_found(b: Seq<u8>, s: int, e: int, pre: Seq<u8>, k: Seq<u8>, v: Seq<u8>, post: Seq<u8>)
    requires
        0 <= s <= e <= b.len() <= u16::MAX,
        b.subrange(s, e) == pre + k + seq![EQUALS] + v + post,
        pre.len() == 0 || pre.last() == SEMI,
        post.len() == 0 || post[0] == SEMI,
        forall|i: int| 0 <= i < k.len() ==> k[i] != SEMI && k[i] != EQUALS,
        forall|i: int| 0 <= i < v.len() ==> v[i] != SEMI,
        forall|i: int|
            0 <= i && i + k.len() < pre.len() && (i == 0 || pre[i - 1] == SEMI)
                ==> !(pre.subrange(i, i + k.len()) == k && #[trigger] pre[i + k.len()] == EQUALS),
    ensures
        tag_lookup(tag_fields(b, s, e), b, k) matches Some(i) && i.bytes_of(b) == v,
{
    let t = pre + k + seq![EQUALS] + v + post;
    let at = s + pre.len();
    let q = at + k.len() + 1 + v.len();
    assert(b.subrange(s, e).len() == e - s);
    assert(t.len() == e - s);
    assert forall|i: int| s <= i < e implies b[i] == #[trigger] t[i - s] by {
        assert(b[i] == b.subrange(s, e)[i - s]);
    }
    let t1 = pre + k;
    let t2 = t1 + seq![EQUALS];
    let t3 = t2 + v;
    assert forall|i: int| 0 <= i < k.len() implies b.subrange(at, at + k.len() as int)[i] == k[i] by {
        assert(b[at + i] == t[pre.len() + i]);
        assert(t[pre.len() + i] == t3[pre.len() + i]);
        assert(t3[pre.len() + i] == t2[pre.len() + i]);
        assert(t2[pre.len() + i] == t1[pre.len() + i]);
    }
    assert(b.subrange(at, at + k.len() as int) =~= k);
    assert forall|x: int| 0 <= x < pre.len() implies b[s + x] == #[trigger] pre[x] by {
        assert(b[s + x] == t[x]);
        assert(t[x] == t3[x]);
        assert(t3[x] == t2[x]);
        assert(t2[x] == t1[x]);
    }
    assert(b[at + k.len()] == t[pre.len() + k.len() as int]);
    assert forall|i: int| 0 <= i < v.len() implies b.subrange(at + k.len() + 1, q)[i] == v[i] by {
        assert(b[at + k.len() + 1 + i] == t[t2.len() + i]);
        assert(t[t2.len() + i] == t3[t2.len() + i]);
    }
    assert(b.subrange(at + k.len() + 1, q) =~= v);
    if q < e {
        assert(b[q] == t[q - s]);
    }
    if pre.len() > 0 {
        assert(b[at - 1] == t[pre.len() - 1]);
    }
    assert forall|i: int|
        s <= i && i + k.len() < at && (i == s || b[i - 1] == SEMI)
            implies !(b.subrange(i, i + k.len()) == k && #[trigger] b[i + k.len()] == EQUALS) by {
        let j = i - s;
        assert(pre.subrange(j, j + k.len()) =~= b.subrange(i, i + k.len()));
        assert(b[i + k.len()] == pre[j + k.len()]);
        if j > 0 {
            assert(b[i - 1] == pre[j - 1]);
        }
    }
    lemma_part_is_found(b, s, e, s, q, k, v, at);
    assert(spec_index(at + k.len() + 1, q).bytes_of(b) =~= v);
}

} // verus!
