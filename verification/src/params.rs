//! An ordered string-to-string map, kept sorted by key in the byte order of
//! the keys' UTF-8 encoding (the order in which `String`s compare).
use vstd::prelude::*;
use vstd::utf8::encode_utf8;

verus! {

/// Strict lexicographic order on byte sequences (the order in which `[u8]` compares).
pub open spec fn bytes_lt(a: Seq<u8>, b: Seq<u8>) -> bool
    decreases a.len(),
{
    if a.len() == 0 {
        b.len() > 0
    } else if b.len() == 0 {
        false
    } else if a[0] != b[0] {
        a[0] < b[0]
    } else {
        bytes_lt(a.drop_first(), b.drop_first())
    }
}

/// Strict order on keys: strings compare by their UTF-8 bytes.
pub open spec fn key_lt(a: Seq<char>, b: Seq<char>) -> bool {
    bytes_lt(encode_utf8(a), encode_utf8(b))
}

/// The keys of `s` are strictly increasing (so no key occurs twice).
pub open spec fn keys_sorted(s: Seq<(Seq<char>, Seq<char>)>) -> bool {
    forall|i: int, j: int| 0 <= i < j < s.len() ==> key_lt(#[trigger] s[i].0, #[trigger] s[j].0)
}

/// The map that a sequence of entries describes (a later entry for a key wins).
pub open spec fn entries_map(s: Seq<(Seq<char>, Seq<char>)>) -> Map<Seq<char>, Seq<char>>
    decreases s.len(),
{
    if s.len() == 0 {
        Map::empty()
    } else {
        entries_map(s.drop_last()).insert(s.last().0, s.last().1)
    }
}

/// `bytes_lt` is irreflexive.
pub proof fn lemma_bytes_lt_irreflexive(a: Seq<u8>)
    ensures
        !bytes_lt(a, a),
    decreases a.len(),
{
    if a.len() > 0 {
        lemma_bytes_lt_irreflexive(a.drop_first());
    }
}

/// `bytes_lt` is transitive.
pub proof fn lemma_bytes_lt_transitive(a: Seq<u8>, b: Seq<u8>, c: Seq<u8>)
    requires
        bytes_lt(a, b),
        bytes_lt(b, c),
    ensures
        bytes_lt(a, c),
    decreases a.len(),
{
    if a.len() > 0 && b.len() > 0 && c.len() > 0 && a[0] == b[0] && b[0] == c[0] {
        lemma_bytes_lt_transitive(a.drop_first(), b.drop_first(), c.drop_first());
    }
}

/// Two different byte sequences are ordered one way or the other.
pub proof fn lemma_bytes_lt_total(a: Seq<u8>, b: Seq<u8>)
    requires
        a != b,
    ensures
        bytes_lt(a, b) || bytes_lt(b, a),
    decreases a.len(),
{
    if a.len() == 0 {
        assert(b.len() > 0) by {
            if b.len() == 0 {
                assert(a =~= b);
            }
        }
    } else if b.len() > 0 && a[0] == b[0] {
        assert(a.drop_first() != b.drop_first()) by {
            if a.drop_first() == b.drop_first() {
                assert(a =~= seq![a[0]] + a.drop_first());
                assert(b =~= seq![b[0]] + b.drop_first());
            }
        }
        lemma_bytes_lt_total(a.drop_first(), b.drop_first());
    }
}

/// `bytes_lt` is asymmetric.
pub proof fn lemma_bytes_lt_asymmetric(a: Seq<u8>, b: Seq<u8>)
    requires
        bytes_lt(a, b),
    ensures
        !bytes_lt(b, a),
    decreases a.len(),
{
    if a.len() > 0 && b.len() > 0 && a[0] == b[0] {
        lemma_bytes_lt_asymmetric(a.drop_first(), b.drop_first());
    }
}

/// Different keys have different UTF-8 encodings.
pub proof fn lemma_encode_injective(a: Seq<char>, b: Seq<char>)
    requires
        encode_utf8(a) == encode_utf8(b),
    ensures
        a == b,
{
    vstd::utf8::encode_utf8_decode_utf8(a);
    vstd::utf8::encode_utf8_decode_utf8(b);
}

/// `key_lt` is a strict total order on keys.
pub proof fn lemma_key_order(a: Seq<char>, b: Seq<char>, c: Seq<char>)
    ensures
        !key_lt(a, a),
        key_lt(a, b) ==> !key_lt(b, a),
        key_lt(a, b) && key_lt(b, c) ==> key_lt(a, c),
        a != b ==> key_lt(a, b) || key_lt(b, a),
{
    lemma_bytes_lt_irreflexive(encode_utf8(a));
    if key_lt(a, b) {
        lemma_bytes_lt_asymmetric(encode_utf8(a), encode_utf8(b));
        if key_lt(b, c) {
            lemma_bytes_lt_transitive(encode_utf8(a), encode_utf8(b), encode_utf8(c));
        }
    }
    if a != b {
        if encode_utf8(a) == encode_utf8(b) {
            lemma_encode_injective(a, b);
        }
        lemma_bytes_lt_total(encode_utf8(a), encode_utf8(b));
    }
}

proof fn lemma_bytes_lt_skip(a: Seq<u8>, b: Seq<u8>, i: int)
    requires
        0 <= i < a.len(),
        i < b.len(),
        a[i] == b[i],
    ensures
        bytes_lt(a.skip(i), b.skip(i)) == bytes_lt(a.skip(i + 1), b.skip(i + 1)),
{
    assert(a.skip(i).drop_first() =~= a.skip(i + 1));
    assert(b.skip(i).drop_first() =~= b.skip(i + 1));
}

/// Whether key `a` sorts strictly before key `b`, as `a < b` on `String`s does.
pub fn key_less(a: &str, b: &str) -> (res: bool)
    ensures
        res == key_lt(a@, b@),
{
    let ab = a.as_bytes();
    let bb = b.as_bytes();
    let n = ab.len();
    let m = bb.len();
    let mut i: usize = 0;
    assert(ab@.skip(0) =~= ab@);
    assert(bb@.skip(0) =~= bb@);
    while i < n && i < m && ab[i] == bb[i]
        invariant
            i <= n,
            i <= m,
            n == ab@.len(),
            m == bb@.len(),
            ab@ == encode_utf8(a@),
            bb@ == encode_utf8(b@),
            key_lt(a@, b@) == bytes_lt(ab@.skip(i as int), bb@.skip(i as int)),
        decreases n - i,
    {
        proof {
            lemma_bytes_lt_skip(ab@, bb@, i as int);
        }
        i = i + 1;
    }
    if i == n {
        i < m
    } else if i == m {
        false
    } else {
        ab[i] < bb[i]
    }
}

proof fn lemma_entries_map_dom(s: Seq<(Seq<char>, Seq<char>)>, k: Seq<char>)
    ensures
        entries_map(s).dom().contains(k) <==> exists|i: int| 0 <= i < s.len() && #[trigger] s[i].0 == k,
    decreases s.len(),
{
    if s.len() > 0 {
        lemma_entries_map_dom(s.drop_last(), k);
        if entries_map(s).dom().contains(k) && k != s.last().0 {
            let i = choose|i: int| 0 <= i < s.drop_last().len() && #[trigger] s.drop_last()[i].0 == k;
            assert(s[i].0 == k);
        }
        if exists|i: int| 0 <= i < s.len() && #[trigger] s[i].0 == k {
            let i = choose|i: int| 0 <= i < s.len() && #[trigger] s[i].0 == k;
            if i < s.len() - 1 {
                assert(s.drop_last()[i].0 == k);
            }
        }
    }
}

proof fn lemma_entries_map_value(s: Seq<(Seq<char>, Seq<char>)>, i: int)
    requires
        keys_sorted(s),
        0 <= i < s.len(),
    ensures
        entries_map(s).dom().contains(s[i].0),
        entries_map(s)[s[i].0] == s[i].1,
    decreases s.len(),
{
    if i < s.len() - 1 {
        assert(key_lt(s[i].0, s[s.len() - 1].0));
        lemma_key_order(s[i].0, s[s.len() - 1].0, s[i].0);
        assert(keys_sorted(s.drop_last()));
        lemma_entries_map_value(s.drop_last(), i);
    }
}

proof fn lemma_entries_map_update(s: Seq<(Seq<char>, Seq<char>)>, p: int, v: Seq<char>)
    requires
        keys_sorted(s),
        0 <= p < s.len(),
    ensures
        keys_sorted(s.update(p, (s[p].0, v))),
        entries_map(s.update(p, (s[p].0, v))) == entries_map(s).insert(s[p].0, v),
{
    let t = s.update(p, (s[p].0, v));
    let k = s[p].0;
    assert(keys_sorted(t)) by {
        assert forall|i: int, j: int| 0 <= i < j < t.len() implies key_lt(#[trigger] t[i].0, #[trigger] t[j].0) by {
            assert(t[i].0 == s[i].0 && t[j].0 == s[j].0);
        }
    }
    assert forall|q: Seq<char>| #[trigger] entries_map(t).dom().contains(q) <==> entries_map(s).insert(k, v).dom().contains(q) by {
        lemma_entries_map_dom(t, q);
        lemma_entries_map_dom(s, q);
        if exists|i: int| 0 <= i < t.len() && #[trigger] t[i].0 == q {
            let i = choose|i: int| 0 <= i < t.len() && #[trigger] t[i].0 == q;
            assert(s[i].0 == q);
        }
        if exists|i: int| 0 <= i < s.len() && #[trigger] s[i].0 == q {
            let i = choose|i: int| 0 <= i < s.len() && #[trigger] s[i].0 == q;
            assert(t[i].0 == q);
        }
    }
    assert forall|q: Seq<char>| #[trigger] entries_map(t).dom().contains(q) implies entries_map(t)[q] == entries_map(s).insert(k, v)[q] by {
        lemma_entries_map_dom(t, q);
        let i = choose|i: int| 0 <= i < t.len() && #[trigger] t[i].0 == q;
        lemma_entries_map_value(t, i);
        if i != p {
            lemma_entries_map_value(s, i);
            assert(s[i].0 == q);
            assert(q != k) by {
                if i < p {
                    assert(key_lt(s[i].0, s[p].0));
                } else {
                    assert(key_lt(s[p].0, s[i].0));
                }
                lemma_key_order(q, k, q);
            }
        }
    }
    assert(entries_map(t) =~= entries_map(s).insert(k, v));
}

proof fn lemma_entries_map_insert(s: Seq<(Seq<char>, Seq<char>)>, p: int, k: Seq<char>, v: Seq<char>)
    requires
        keys_sorted(s),
        0 <= p <= s.len(),
        forall|i: int| 0 <= i < p ==> key_lt(#[trigger] s[i].0, k),
        p < s.len() ==> key_lt(k, s[p].0),
    ensures
        keys_sorted(s.insert(p, (k, v))),
        entries_map(s.insert(p, (k, v))) == entries_map(s).insert(k, v),
{
    let t = s.insert(p, (k, v));
    assert(keys_sorted(t)) by {
        assert forall|i: int, j: int| 0 <= i < j < t.len() implies key_lt(#[trigger] t[i].0, #[trigger] t[j].0) by {
            if j < p {
                assert(t[i] == s[i] && t[j] == s[j]);
            } else if j == p {
                assert(t[i] == s[i]);
            } else if i == p {
                assert(t[j] == s[j - 1]);
                if j - 1 > p {
                    assert(key_lt(s[p].0, s[j - 1].0));
                    lemma_key_order(k, s[p].0, s[j - 1].0);
                }
            } else if i < p {
                assert(t[i] == s[i] && t[j] == s[j - 1]);
                assert(key_lt(s[i].0, k));
                assert(key_lt(k, s[p].0));
                lemma_key_order(s[i].0, k, s[p].0);
                if j - 1 > p {
                    assert(key_lt(s[p].0, s[j - 1].0));
                    lemma_key_order(s[i].0, s[p].0, s[j - 1].0);
                }
            } else {
                assert(t[i] == s[i - 1] && t[j] == s[j - 1]);
            }
        }
    }
    assert forall|q: Seq<char>| #[trigger] entries_map(t).dom().contains(q) <==> entries_map(s).insert(k, v).dom().contains(q) by {
        lemma_entries_map_dom(t, q);
        lemma_entries_map_dom(s, q);
        if exists|i: int| 0 <= i < t.len() && #[trigger] t[i].0 == q {
            let i = choose|i: int| 0 <= i < t.len() && #[trigger] t[i].0 == q;
            if i < p {
                assert(s[i].0 == q);
            } else if i > p {
                assert(s[i - 1].0 == q);
            }
        }
        if exists|i: int| 0 <= i < s.len() && #[trigger] s[i].0 == q {
            let i = choose|i: int| 0 <= i < s.len() && #[trigger] s[i].0 == q;
            if i < p {
                assert(t[i].0 == q);
            } else {
                assert(t[i + 1].0 == q);
            }
        }
        if q == k {
            assert(t[p].0 == q);
        }
    }
    assert forall|q: Seq<char>| #[trigger] entries_map(t).dom().contains(q) implies entries_map(t)[q] == entries_map(s).insert(k, v)[q] by {
        lemma_entries_map_dom(t, q);
        let i = choose|i: int| 0 <= i < t.len() && #[trigger] t[i].0 == q;
        lemma_entries_map_value(t, i);
        if i != p {
            let si = if i < p { i } else { i - 1 };
            assert(t[i] == s[si]);
            lemma_entries_map_value(s, si);
            assert(q != k) by {
                if i < p {
                    assert(key_lt(t[i].0, t[p].0));
                } else {
                    assert(key_lt(t[p].0, t[i].0));
                }
                lemma_key_order(q, k, q);
            }
        }
    }
    assert(entries_map(t) =~= entries_map(s).insert(k, v));
}

proof fn lemma_last_key_is_largest(s: Seq<(Seq<char>, Seq<char>)>, k: Seq<char>)
    requires
        keys_sorted(s),
        s.len() > 0,
        entries_map(s).dom().contains(k),
    ensures
        k == s.last().0 || key_lt(k, s.last().0),
{
    lemma_entries_map_dom(s, k);
    let j = choose|j: int| 0 <= j < s.len() && #[trigger] s[j].0 == k;
    if j < s.len() - 1 {
        assert(key_lt(s[j].0, s[s.len() - 1].0));
    }
}

proof fn lemma_entries_map_drop_last(s: Seq<(Seq<char>, Seq<char>)>)
    requires
        keys_sorted(s),
        s.len() > 0,
    ensures
        keys_sorted(s.drop_last()),
        entries_map(s.drop_last()) == entries_map(s).remove(s.last().0),
{
    let d = s.drop_last();
    let k = s.last().0;
    assert(keys_sorted(d));
    lemma_entries_map_dom(d, k);
    if entries_map(d).dom().contains(k) {
        let j = choose|j: int| 0 <= j < d.len() && #[trigger] d[j].0 == k;
        assert(key_lt(s[j].0, s[s.len() - 1].0));
        lemma_key_order(k, k, k);
    }
    assert(entries_map(d) =~= entries_map(s).remove(k));
}

/// Sorted entries are determined by the map they describe: whatever order
/// keys were inserted in, the same keys and values give the same entries.
pub proof fn lemma_entries_determined(s1: Seq<(Seq<char>, Seq<char>)>, s2: Seq<(Seq<char>, Seq<char>)>)
    requires
        keys_sorted(s1),
        keys_sorted(s2),
        entries_map(s1) == entries_map(s2),
    ensures
        s1 == s2,
    decreases s1.len(),
{
    if s1.len() == 0 {
        if s2.len() > 0 {
            lemma_entries_map_value(s2, s2.len() - 1);
        }
        assert(s1 =~= s2);
    } else {
        lemma_entries_map_value(s1, s1.len() - 1);
        if s2.len() == 0 {
            assert(false);
        }
        lemma_entries_map_value(s2, s2.len() - 1);
        let k1 = s1.last().0;
        let k2 = s2.last().0;
        lemma_last_key_is_largest(s2, k1);
        lemma_last_key_is_largest(s1, k2);
        lemma_key_order(k1, k2, k1);
        assert(k1 == k2);
        assert(s1.last() == s2.last());
        lemma_entries_map_drop_last(s1);
        lemma_entries_map_drop_last(s2);
        lemma_entries_determined(s1.drop_last(), s2.drop_last());
        assert(s1 =~= s2.drop_last().push(s2.last()));
        assert(s2 =~= s2.drop_last().push(s2.last()));
    }
}

/// The map of two runs of entries is the first run's map overridden by the second's.
pub proof fn lemma_entries_map_append(a: Seq<(Seq<char>, Seq<char>)>, b: Seq<(Seq<char>, Seq<char>)>)
    ensures
        entries_map(a + b) == entries_map(a).union_prefer_right(entries_map(b)),
    decreases b.len(),
{
    if b.len() == 0 {
        assert(a + b =~= a);
        assert(entries_map(a).union_prefer_right(entries_map(b)) =~= entries_map(a));
    } else {
        lemma_entries_map_append(a, b.drop_last());
        assert((a + b).drop_last() =~= a + b.drop_last());
        assert((a + b).last() == b.last());
        assert(entries_map(a).union_prefer_right(entries_map(b.drop_last())).insert(b.last().0, b.last().1)
            =~= entries_map(a).union_prefer_right(entries_map(b)));
    }
}

/// A parameter map: string keys to string values, always in increasing key
/// order with no key twice, as a `BTreeMap<String, String>` is walked.
pub struct ParamMap {
    entries: Vec<(String, String)>,
}

impl View for ParamMap {
    type V = Seq<(Seq<char>, Seq<char>)>;

    /// The entries, in the order in which they are walked.
    closed spec fn view(&self) -> Seq<(Seq<char>, Seq<char>)> {
        self.entries@.map_values(|e: (String, String)| (e.0@, e.1@))
    }
}

impl ParamMap {
    #[verifier::type_invariant]
    pub(crate) closed spec fn well_formed(self) -> bool {
        keys_sorted(self@)
    }

    /// The map of keys to values that the entries describe.
    pub open spec fn as_map(&self) -> Map<Seq<char>, Seq<char>> {
        entries_map(self@)
    }

    /// An empty map.
    pub fn new() -> (res: ParamMap)
        ensures
            res@ == Seq::<(Seq<char>, Seq<char>)>::empty(),
    {
        let res = ParamMap { entries: Vec::new() };
        assert(res@ =~= Seq::<(Seq<char>, Seq<char>)>::empty());
        res
    }

    /// Whether the map has no entries.
    pub fn is_empty(&self) -> (res: bool)
        ensures
            res == (self@.len() == 0),
    {
        self.entries.len() == 0
    }

    /// The number of entries.
    pub fn len(&self) -> (res: usize)
        ensures
            res == self@.len(),
    {
        self.entries.len()
    }

    /// The entries, in strictly increasing key order.
    pub fn entries(&self) -> (res: &Vec<(String, String)>)
        ensures
            res@.map_values(|e: (String, String)| (e.0@, e.1@)) == self@,
            keys_sorted(self@),
    {
        proof {
            use_type_invariant(self);
        }
        &self.entries
    }

    /// Sets `key` to `value`, replacing any earlier value of `key`.
    pub fn insert(&mut self, key: String, value: String)
        ensures
            final(self).as_map() == old(self).as_map().insert(key@, value@),
            keys_sorted(final(self)@),
            old(self).as_map().dom().contains(key@) ==> final(self)@.len() == old(self)@.len(),
            !old(self).as_map().dom().contains(key@) ==> final(self)@.len() == old(self)@.len() + 1,
    {
        proof {
            use_type_invariant(&*self);
        }
        let ghost s = self@;
        let n = self.entries.len();
        let mut p: usize = 0;
        while p < n && key_less(self.entries[p].0.as_str(), key.as_str())
            invariant
                p <= n,
                n == self.entries@.len(),
                s == self@,
                keys_sorted(s),
                forall|i: int| 0 <= i < p ==> key_lt(#[trigger] s[i].0, key@),
            decreases n - p,
        {
            assert(s[p as int].0 == self.entries@[p as int].0@);
            p = p + 1;
        }
        proof {
            lemma_entries_map_dom(s, key@);
        }
        if p < n && self.entries[p].0 == key {
            assert(s[p as int].0 == key@);
            proof {
                lemma_entries_map_update(s, p as int, value@);
            }
            let ghost v = value@;
            let mut entries: Vec<(String, String)> = Vec::new();
            std::mem::swap(&mut entries, &mut self.entries);
            let k = entries[p].0.clone();
            entries.set(p, (k, value));
            assert(entries@.map_values(|e: (String, String)| (e.0@, e.1@)) =~= s.update(p as int, (s[p as int].0, v)));
            self.entries = entries;
        } else {
            proof {
                if p < n {
                    assert(s[p as int].0 == self.entries@[p as int].0@);
                    assert(!key_lt(s[p as int].0, key@));
                    assert(s[p as int].0 != key@);
                    lemma_key_order(key@, s[p as int].0, key@);
                }
                if entries_map(s).dom().contains(key@) {
                    let i = choose|i: int| 0 <= i < s.len() && #[trigger] s[i].0 == key@;
                    if i < p {
                        lemma_key_order(key@, key@, key@);
                    } else {
                        if i > p {
                            assert(key_lt(s[p as int].0, s[i].0));
                            lemma_key_order(key@, s[p as int].0, s[i].0);
                        }
                        lemma_key_order(key@, key@, key@);
                    }
                }
                lemma_entries_map_insert(s, p as int, key@, value@);
            }
            let ghost kv = (key@, value@);
            let mut entries: Vec<(String, String)> = Vec::new();
            std::mem::swap(&mut entries, &mut self.entries);
            entries.insert(p, (key, value));
            assert(entries@.map_values(|e: (String, String)| (e.0@, e.1@)) =~= s.insert(p as int, kv));
            self.entries = entries;
        }
    }
}

} // verus!
