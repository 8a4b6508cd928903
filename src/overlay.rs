//! An ordered mapping from names to values: keys are unique and entries keep
//! the order in which their keys were first inserted. Used for environment
//! overlays and for name-to-name tables.
use crate::text::same_text;
use vstd::prelude::*;

verus! {

/// One entry, seen as text.
pub type Entry = (Seq<char>, Seq<char>);

/// No key occurs twice.
pub open spec fn keys_unique(s: Seq<Entry>) -> bool {
    forall|i: int, j: int| 0 <= i < j < s.len() ==> s[i].0 != s[j].0
}

/// The index of the last entry whose key is `k`.
pub open spec fn position(s: Seq<Entry>, k: Seq<char>) -> Option<int>
    decreases s.len(),
{
    if s.len() == 0 {
        None
    } else if s.last().0 == k {
        Some(s.len() - 1)
    } else {
        position(s.drop_last(), k)
    }
}

/// `s` after setting `k` to `v`: an existing entry keeps its place, a new key goes last.
pub open spec fn with_entry(s: Seq<Entry>, k: Seq<char>, v: Seq<char>) -> Seq<Entry> {
    match position(s, k) {
        Some(i) => s.update(i, (k, v)),
        None => s.push((k, v)),
    }
}

/// `a` after setting each entry of `b` in turn.
pub open spec fn merged(a: Seq<Entry>, b: Seq<Entry>) -> Seq<Entry>
    decreases b.len(),
{
    if b.len() == 0 {
        a
    } else {
        with_entry(merged(a, b.drop_last()), b.last().0, b.last().1)
    }
}

/// The entries as a map; a later entry for a key wins over an earlier one.
pub open spec fn as_map(s: Seq<Entry>) -> Map<Seq<char>, Seq<char>>
    decreases s.len(),
{
    if s.len() == 0 {
        Map::empty()
    } else {
        as_map(s.drop_last()).insert(s.last().0, s.last().1)
    }
}

/// `position` finds an entry with the key, and none after it; or there is none.
pub proof fn lemma_position(s: Seq<Entry>, k: Seq<char>)
    ensures
        match position(s, k) {
            Some(i) => 0 <= i < s.len() && s[i].0 == k && forall|j: int|
                i < j < s.len() ==> s[j].0 != k,
            None => forall|j: int| 0 <= j < s.len() ==> s[j].0 != k,
        },
    decreases s.len(),
{
    if s.len() > 0 {
        lemma_position(s.drop_last(), k);
        assert(forall|j: int| 0 <= j < s.len() - 1 ==> s.drop_last()[j] == s[j]);
    }
}

/// The map holds a key exactly where some entry has it, with the value of the last such entry.
pub proof fn lemma_as_map(s: Seq<Entry>, k: Seq<char>)
    ensures
        as_map(s).contains_key(k) <==> position(s, k) is Some,
        position(s, k) matches Some(i) ==> as_map(s)[k] == s[i].1,
    decreases s.len(),
{
    if s.len() > 0 {
        lemma_as_map(s.drop_last(), k);
        lemma_position(s, k);
        assert(forall|j: int| 0 <= j < s.len() - 1 ==> s.drop_last()[j] == s[j]);
    }
}

/// `position` depends on the keys alone.
proof fn lemma_position_keys(s: Seq<Entry>, t: Seq<Entry>, q: Seq<char>)
    requires
        s.len() == t.len(),
        forall|j: int| 0 <= j < s.len() ==> #[trigger] t[j].0 == s[j].0,
    ensures
        position(s, q) == position(t, q),
    decreases s.len(),
{
    if s.len() > 0 {
        lemma_position_keys(s.drop_last(), t.drop_last(), q);
    }
}

/// Setting one entry keeps the keys unique and sets that key in the map.
pub proof fn lemma_with_entry(s: Seq<Entry>, k: Seq<char>, v: Seq<char>)
    requires
        keys_unique(s),
    ensures
        keys_unique(with_entry(s, k, v)),
        as_map(with_entry(s, k, v)) == as_map(s).insert(k, v),
{
    let t = with_entry(s, k, v);
    lemma_position(s, k);
    match position(s, k) {
        Some(i) => {
            assert(forall|j: int| 0 <= j < s.len() ==> #[trigger] t[j].0 == s[j].0);
            let m = as_map(s).insert(k, v);
            assert forall|q: Seq<char>| #[trigger] as_map(t).dom().contains(q) == m.dom().contains(q)
                && (as_map(t).dom().contains(q) ==> as_map(t)[q] == m[q]) by {
                lemma_position_keys(s, t, q);
                lemma_position(s, q);
                lemma_as_map(s, q);
                lemma_as_map(t, q);
            }
            assert(as_map(t).dom() =~= m.dom());
            assert(as_map(t) =~= as_map(s).insert(k, v));
        },
        None => {
            assert(t.drop_last() =~= s);
        },
    }
}

/// Merging two overlays keeps the keys unique; as a map, the result holds
/// every key of either, with the second overlay's value on a shared key.
pub proof fn lemma_merged(a: Seq<Entry>, b: Seq<Entry>)
    requires
        keys_unique(a),
    ensures
        keys_unique(merged(a, b)),
        as_map(merged(a, b)) == as_map(a).union_prefer_right(as_map(b)),
    decreases b.len(),
{
    if b.len() == 0 {
        assert(as_map(a).union_prefer_right(as_map(b)) =~= as_map(a));
    } else {
        lemma_merged(a, b.drop_last());
        lemma_with_entry(merged(a, b.drop_last()), b.last().0, b.last().1);
        assert(as_map(a).union_prefer_right(as_map(b)) =~= as_map(a).union_prefer_right(
            as_map(b.drop_last()),
        ).insert(b.last().0, b.last().1));
    }
}

/// Pairs of strings, seen as text.
pub open spec fn entries_view(v: Seq<(String, String)>) -> Seq<Entry> {
    v.map_values(|e: (String, String)| (e.0@, e.1@))
}

/// An ordered mapping from names to values with unique keys.
pub struct StringMap {
    entries: Vec<(String, String)>,
}

/// Environment variables to set, on top of the inherited environment, when a
/// tool is spawned.
pub type EnvironmentOverlay = StringMap;

impl View for StringMap {
    type V = Seq<Entry>;

    closed spec fn view(&self) -> Seq<Entry> {
        entries_view(self.entries@)
    }
}

impl StringMap {
    /// Keys are unique.
    pub open spec fn wf(&self) -> bool {
        keys_unique(self@)
    }

    /// The mapping with no entries.
    pub fn new() -> (r: StringMap)
        ensures
            r@ == Seq::<Entry>::empty(),
            r.wf(),
    {
        StringMap { entries: Vec::new() }
    }

    /// The mapping with the single entry `key` to `value`.
    pub fn singleton(key: String, value: String) -> (r: StringMap)
        ensures
            r@ == seq![(key@, value@)],
            r.wf(),
    {
        let mut entries = Vec::new();
        entries.push((key, value));
        let r = StringMap { entries };
        assert(r@ =~= seq![(key@, value@)]);
        r
    }

    /// A copy with the same entries in the same order.
    pub fn duplicate(&self) -> (r: StringMap)
        ensures
            r@ == self@,
    {
        let mut entries: Vec<(String, String)> = Vec::new();
        let n = self.entries.len();
        let mut i: usize = 0;
        while i < n
            invariant
                i <= n,
                n == self@.len(),
                entries@.len() == i,
                entries_view(entries@) =~= self@.subrange(0, i as int),
            decreases n - i,
        {
            let e = &self.entries[i];
            let ghost before = entries@;
            entries.push((e.0.clone(), e.1.clone()));
            assert(entries@ == before.push(entries@.last()));
            assert(self@[i as int] == (entries@.last().0@, entries@.last().1@));
            assert(entries_view(entries@) =~= self@.subrange(0, i + 1));
            i = i + 1;
        }
        assert(self@.subrange(0, n as int) =~= self@);
        StringMap { entries }
    }

    /// Number of entries.
    pub fn len(&self) -> (r: usize)
        ensures
            r == self@.len(),
    {
        self.entries.len()
    }

    /// The entries in order.
    pub fn entries(&self) -> (r: &Vec<(String, String)>)
        ensures
            entries_view(r@) == self@,
    {
        &self.entries
    }

    /// Where the entry for `key` stands, if there is one.
    pub fn find(&self, key: &str) -> (r: Option<usize>)
        ensures
            r matches Some(i) ==> position(self@, key@) == Some(i as int) && i < self@.len(),
            r is None ==> position(self@, key@) is None,
    {
        proof {
            lemma_position(self@, key@);
        }
        let n = self.entries.len();
        let mut i: usize = n;
        assert(self@.subrange(0, n as int) =~= self@);
        while i > 0
            invariant
                i <= n,
                n == self@.len(),
                position(self@, key@) == position(self@.subrange(0, i as int), key@),
            decreases i,
        {
            let ghost sub = self@.subrange(0, i as int);
            assert(sub.drop_last() =~= self@.subrange(0, i - 1));
            if same_text(self.entries[i - 1].0.as_str(), key) {
                return Some(i - 1);
            }
            i = i - 1;
        }
        None
    }

    /// The value for `key`, if there is one.
    pub fn get(&self, key: &str) -> (r: Option<&String>)
        ensures
            r matches Some(v) ==> as_map(self@).contains_key(key@) && v@ == as_map(self@)[key@],
            r is None ==> !as_map(self@).contains_key(key@),
    {
        proof {
            lemma_as_map(self@, key@);
        }
        match self.find(key) {
            Some(i) => Some(&self.entries[i].1),
            None => None,
        }
    }

    /// Sets `key` to `value`: an existing entry keeps its place, a new key goes last.
    pub fn insert(&mut self, key: String, value: String)
        requires
            old(self).wf(),
        ensures
            final(self)@ == with_entry(old(self)@, key@, value@),
            final(self).wf(),
            as_map(final(self)@) == as_map(old(self)@).insert(key@, value@),
    {
        proof {
            lemma_with_entry(self@, key@, value@);
        }
        match self.find(key.as_str()) {
            Some(i) => {
                self.entries[i] = (key, value);
            },
            None => {
                self.entries.push((key, value));
            },
        }
        assert(self@ =~= with_entry(old(self)@, key@, value@));
    }

    /// Sets every entry of `other` in turn, so that on a shared key the value
    /// of `other` wins.
    pub fn combine(&mut self, other: StringMap)
        requires
            old(self).wf(),
        ensures
            final(self)@ == merged(old(self)@, other@),
            final(self).wf(),
            as_map(final(self)@) == as_map(old(self)@).union_prefer_right(as_map(other@)),
    {
        proof {
            lemma_merged(self@, other@);
        }
        let ghost start = self@;
        let ghost rest = other@;
        let n = other.entries.len();
        for e in it: other.entries
            invariant
                n == rest.len(),
                entries_view(it.seq()) == rest,
                self.wf(),
                self@ == merged(start, rest.subrange(0, it.index() as int)),
                keys_unique(start),
        {
            let ghost k = it.index();
            proof {
                assert(rest.subrange(0, k + 1).drop_last() =~= rest.subrange(0, k as int));
                lemma_merged(start, rest.subrange(0, k as int));
            }
            self.insert(e.0, e.1);
        }
        assert(rest.subrange(0, n as int) =~= rest);
    }
}

} // verus!
