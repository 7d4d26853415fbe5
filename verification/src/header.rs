//! A model of the HTTP header map at the handshake's interface boundary:
//! known header names as an enumeration (lookup is case-insensitive at the
//! boundary where raw names are turned into `HeaderName`s), values as bytes.

use vstd::prelude::*;

verus! {

/// Compare two byte vectors by contents.
pub fn bytes_eq(a: &Vec<u8>, b: &Vec<u8>) -> (r: bool)
    ensures
        r == (a@ == b@),
{
    if a.len() != b.len() {
        return false;
    }
    let mut i: usize = 0;
    while i < a.len()
        invariant
            i <= a@.len(),
            a@.len() == b@.len(),
            forall|j: int| 0 <= j < i ==> a@[j] == b@[j],
        decreases a@.len() - i,
    {
        if a[i] != b[i] {
            return false;
        }
        i += 1;
    }
    proof {
        assert(a@ =~= b@);
    }
    true
}

/// The byte sequence with every ASCII upper-case letter lowered.
pub open spec fn lower_seq(s: Seq<u8>) -> Seq<u8> {
    Seq::new(
        s.len(),
        |i: int|
            if 0x41 <= s[i] <= 0x5a {
                (s[i] + 0x20) as u8
            } else {
                s[i]
            },
    )
}

/// Lower-case every ASCII upper-case letter of `v`, into a fresh vector.
pub fn to_ascii_lower(v: &Vec<u8>) -> (r: Vec<u8>)
    ensures
        r@ == lower_seq(v@),
{
    let mut out: Vec<u8> = Vec::new();
    let mut i: usize = 0;
    while i < v.len()
        invariant
            i <= v@.len(),
            out@ == lower_seq(v@).subrange(0, i as int),
        decreases v@.len() - i,
    {
        let b = v[i];
        if 0x41 <= b && b <= 0x5a {
            out.push(b + 0x20);
        } else {
            out.push(b);
        }
        assert(out@ =~= lower_seq(v@).subrange(0, i + 1));
        i += 1;
    }
    assert(out@ =~= lower_seq(v@));
    out
}

/// Whether `needle` occurs as a contiguous subsequence of `hay`.
pub open spec fn contains_sub(hay: Seq<u8>, needle: Seq<u8>) -> bool {
    exists|i: int|
        0 <= i <= hay.len() - needle.len() && #[trigger] hay.subrange(i, i + needle.len())
            == needle
}

/// Substring search: whether `needle` occurs anywhere in `hay`.
pub fn contains_bytes(hay: &Vec<u8>, needle: &Vec<u8>) -> (r: bool)
    ensures
        r == contains_sub(hay@, needle@),
{
    if needle.len() > hay.len() {
        proof {
            assert(!contains_sub(hay@, needle@));
        }
        return false;
    }
    if needle.len() == 0 {
        proof {
            assert(contains_sub(hay@, needle@)) by {
                assert(hay@.subrange(0, 0 + needle@.len() as int) =~= needle@);
            }
        }
        return true;
    }
    let mut i: usize = 0;
    while i <= hay.len() - needle.len()
        invariant
            1 <= needle@.len() <= hay@.len(),
            hay@.len() <= usize::MAX,
            i <= hay@.len() - needle@.len() + 1,
            forall|x: int|
                0 <= x < i ==> #[trigger] hay@.subrange(x, x + needle@.len()) != needle@,
        decreases hay@.len() - needle@.len() + 1 - i,
    {
        let mut j: usize = 0;
        let mut all: bool = true;
        while j < needle.len() && all
            invariant
                j <= needle@.len(),
                i + needle@.len() <= hay@.len(),
                hay@.len() <= usize::MAX,
                all ==> forall|y: int| 0 <= y < j ==> hay@[i + y] == needle@[y],
                !all ==> hay@.subrange(i as int, i + needle@.len()) != needle@,
            decreases needle@.len() - j + (if all { 1int } else { 0int }),
        {
            if hay[i + j] != needle[j] {
                all = false;
                proof {
                    assert(hay@.subrange(i as int, i + needle@.len())[j as int] == hay@[i + j]);
                }
            } else {
                j += 1;
            }
        }
        if all {
            proof {
                assert(hay@.subrange(i as int, i + needle@.len()) =~= needle@);
            }
            return true;
        }
        i += 1;
    }
    false
}

/// A header name. The ones the protocol engine reads are enumerated; anything
/// else is carried verbatim.
#[derive(Debug, Clone)]
pub enum HeaderName {
    Upgrade,
    Connection,
    SecWebSocketVersion,
    SecWebSocketKey,
    SecWebSocketAccept,
    Allow,
    ContentType,
    Other(Vec<u8>),
}

/// Equality of header names: like variants, with `Other` names compared by
/// contents.
pub open spec fn name_eq(a: HeaderName, b: HeaderName) -> bool {
    match (a, b) {
        (HeaderName::Upgrade, HeaderName::Upgrade) => true,
        (HeaderName::Connection, HeaderName::Connection) => true,
        (HeaderName::SecWebSocketVersion, HeaderName::SecWebSocketVersion) => true,
        (HeaderName::SecWebSocketKey, HeaderName::SecWebSocketKey) => true,
        (HeaderName::SecWebSocketAccept, HeaderName::SecWebSocketAccept) => true,
        (HeaderName::Allow, HeaderName::Allow) => true,
        (HeaderName::ContentType, HeaderName::ContentType) => true,
        (HeaderName::Other(x), HeaderName::Other(y)) => x@ == y@,
        _ => false,
    }
}

impl HeaderName {
    /// Whether two names are the same header.
    pub fn eq_name(&self, other: &HeaderName) -> (r: bool)
        ensures
            r == name_eq(*self, *other),
    {
        match (self, other) {
            (HeaderName::Upgrade, HeaderName::Upgrade) => true,
            (HeaderName::Connection, HeaderName::Connection) => true,
            (HeaderName::SecWebSocketVersion, HeaderName::SecWebSocketVersion) => true,
            (HeaderName::SecWebSocketKey, HeaderName::SecWebSocketKey) => true,
            (HeaderName::SecWebSocketAccept, HeaderName::SecWebSocketAccept) => true,
            (HeaderName::Allow, HeaderName::Allow) => true,
            (HeaderName::ContentType, HeaderName::ContentType) => true,
            (HeaderName::Other(x), HeaderName::Other(y)) => bytes_eq(x, y),
            _ => false,
        }
    }
}

/// Header-name equality is an equivalence.
pub proof fn lemma_name_eq_equiv(a: HeaderName, b: HeaderName, c: HeaderName)
    ensures
        name_eq(a, a),
        name_eq(a, b) == name_eq(b, a),
        name_eq(a, b) && name_eq(b, c) ==> name_eq(a, c),
{
}

/// First-match lookup in a sequence of header entries.
pub open spec fn lookup(s: Seq<(HeaderName, Vec<u8>)>, n: HeaderName) -> Option<Seq<u8>>
    decreases s.len(),
{
    if s.len() == 0 {
        None
    } else if name_eq(s[0].0, n) {
        Some(s[0].1@)
    } else {
        lookup(s.drop_first(), n)
    }
}

/// Lookup distributes over concatenation: the first list wins.
pub proof fn lemma_lookup_concat(s1: Seq<(HeaderName, Vec<u8>)>, s2: Seq<(HeaderName, Vec<u8>)>, n: HeaderName)
    ensures
        lookup(s1 + s2, n) == (if lookup(s1, n) is Some {
            lookup(s1, n)
        } else {
            lookup(s2, n)
        }),
    decreases s1.len(),
{
    if s1.len() == 0 {
        assert(s1 + s2 =~= s2);
    } else {
        assert((s1 + s2).drop_first() =~= s1.drop_first() + s2);
        lemma_lookup_concat(s1.drop_first(), s2, n);
    }
}

/// The header map: a list of name/value entries; lookup takes the first match.
#[derive(Debug)]
pub struct HeaderMap {
    entries: Vec<(HeaderName, Vec<u8>)>,
}

impl HeaderMap {
    /// The value the map holds for a name, if any.
    pub closed spec fn spec_get(self, n: HeaderName) -> Option<Seq<u8>> {
        lookup(self.entries@, n)
    }

    /// An empty map.
    pub fn new() -> (r: HeaderMap)
        ensures
            forall|n: HeaderName| #[trigger] r.spec_get(n) is None,
    {
        HeaderMap { entries: Vec::new() }
    }

    /// The value stored under `n`, if any.
    pub fn get(&self, n: &HeaderName) -> (r: Option<&Vec<u8>>)
        ensures
            match r {
                Some(v) => self.spec_get(*n) == Some(v@),
                None => self.spec_get(*n) is None,
            },
    {
        proof {
            assert(self.entries@.subrange(0, self.entries@.len() as int) =~= self.entries@);
        }
        let mut i: usize = 0;
        while i < self.entries.len()
            invariant
                i <= self.entries@.len(),
                lookup(self.entries@, *n) == lookup(
                    self.entries@.subrange(i as int, self.entries@.len() as int),
                    *n,
                ),
            decreases self.entries@.len() - i,
        {
            let ghost tail = self.entries@.subrange(i as int, self.entries@.len() as int);
            if self.entries[i].0.eq_name(n) {
                assert(lookup(tail, *n) == Some(self.entries@[i as int].1@));
                return Some(&self.entries[i].1);
            }
            proof {
                assert(tail.drop_first() =~= self.entries@.subrange(
                    i + 1,
                    self.entries@.len() as int,
                ));
            }
            i += 1;
        }
        None
    }

    /// Whether the map holds a value for `n`.
    pub fn contains_key(&self, n: &HeaderName) -> (r: bool)
        ensures
            r == (self.spec_get(*n) is Some),
    {
        self.get(n).is_some()
    }

    /// Store `v` under `n`, replacing every existing entry of that name.
    pub fn insert(&mut self, n: HeaderName, v: Vec<u8>)
        ensures
            final(self).spec_get(n) == Some(v@),
            forall|m: HeaderName|
                !name_eq(m, n) ==> #[trigger] final(self).spec_get(m) == old(self).spec_get(m),
    {
        let mut out: Vec<(HeaderName, Vec<u8>)> = Vec::new();
        let mut rest: Vec<(HeaderName, Vec<u8>)> = Vec::new();
        core::mem::swap(&mut rest, &mut self.entries);
        let ghost orig = rest@;
        while rest.len() > 0
            invariant
                forall|m: HeaderName| name_eq(m, n) ==> #[trigger] lookup(out@, m) is None,
                forall|m: HeaderName|
                    !name_eq(m, n) ==> #[trigger] lookup(out@ + rest@, m) == lookup(orig, m),
            decreases rest@.len(),
        {
            let ghost pre_out = out@;
            let ghost pre_rest = rest@;
            let e = rest.remove(0);
            let keep = !e.0.eq_name(&n);
            if keep {
                out.push(e);
            }
            proof {
                assert(pre_rest.drop_first() =~= rest@);
                if keep {
                    assert(out@ =~= pre_out + seq![pre_rest[0]]);
                    assert forall|m: HeaderName| !name_eq(m, n) implies #[trigger] lookup(
                        out@ + rest@,
                        m,
                    ) == lookup(orig, m) by {
                        assert(pre_out + pre_rest =~= out@ + rest@);
                        assert(lookup(pre_out + pre_rest, m) == lookup(orig, m));
                    }
                    assert forall|m: HeaderName| name_eq(m, n) implies #[trigger] lookup(
                        out@,
                        m,
                    ) is None by {
                        lemma_name_eq_equiv(pre_rest[0].0, m, n);
                        lemma_lookup_concat(pre_out, seq![pre_rest[0]], m);
                        assert(lookup(pre_out, m) is None);
                        assert(!name_eq(pre_rest[0].0, m));
                        let single = seq![pre_rest[0]];
                        assert(single.drop_first() =~= Seq::<(HeaderName, Vec<u8>)>::empty());
                        assert(lookup(Seq::<(HeaderName, Vec<u8>)>::empty(), m) is None);
                        assert(lookup(single, m) is None);
                    }
                } else {
                    assert forall|m: HeaderName| !name_eq(m, n) implies #[trigger] lookup(
                        out@ + rest@,
                        m,
                    ) == lookup(orig, m) by {
                        lemma_lookup_concat(pre_out, pre_rest, m);
                        lemma_lookup_concat(pre_out, pre_rest.drop_first(), m);
                        lemma_name_eq_equiv(pre_rest[0].0, m, n);
                        assert(!name_eq(pre_rest[0].0, m));
                        assert(lookup(pre_rest, m) == lookup(pre_rest.drop_first(), m));
                        assert(lookup(pre_out + pre_rest, m) == lookup(orig, m));
                    }
                }
            }
        }
        let ghost pre = out@;
        out.push((n, v));
        proof {
            assert(rest@.len() == 0);
            assert(out@ =~= pre + seq![(n, v)]);
            lemma_lookup_concat(pre, seq![(n, v)], n);
            lemma_name_eq_equiv(n, n, n);
            assert(lookup(pre, n) is None);
            assert(lookup(seq![(n, v)], n) == Some(v@));
            assert forall|m: HeaderName| !name_eq(m, n) implies #[trigger] lookup(out@, m)
                == lookup(orig, m) by {
                lemma_lookup_concat(pre, seq![(n, v)], m);
                lemma_name_eq_equiv(n, m, n);
                assert(!name_eq(n, m));
                let single = seq![(n, v)];
                assert(single.drop_first() =~= Seq::<(HeaderName, Vec<u8>)>::empty());
                assert(lookup(Seq::<(HeaderName, Vec<u8>)>::empty(), m) is None);
                assert(lookup(single, m) is None);
                assert(pre + rest@ =~= pre);
                assert(lookup(pre + rest@, m) == lookup(orig, m));
            }
        }
        self.entries = out;
    }
}

} // verus!
