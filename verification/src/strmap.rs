//! A small map keyed by strings, kept as a list of entries with distinct
//! keys. It backs the event and timer centres.
use vstd::prelude::*;

verus! {

/// The map that a list of entries denotes: later entries win, though with
/// distinct keys there is nothing to win.
pub open spec fn entries_map<V>(s: Seq<(String, V)>) -> Map<Seq<char>, V>
    decreases s.len(),
{
    if s.len() == 0 {
        Map::empty()
    } else {
        entries_map(s.drop_last()).insert(s.last().0@, s.last().1)
    }
}

/// No key occurs twice.
pub open spec fn keys_unique<V>(s: Seq<(String, V)>) -> bool {
    forall|i: int, j: int| 0 <= i < j < s.len() ==> s[i].0@ != s[j].0@
}

/// The keys of the map are exactly the keys of the entries.
pub proof fn lemma_entries_map_dom<V>(s: Seq<(String, V)>)
    ensures
        forall|k: Seq<char>|
            entries_map(s).contains_key(k) <==> exists|i: int| 0 <= i < s.len() && s[i].0@ == k,
    decreases s.len(),
{
    if s.len() > 0 {
        lemma_entries_map_dom(s.drop_last());
        assert forall|k: Seq<char>|
            entries_map(s).contains_key(k) implies exists|i: int| 0 <= i < s.len() && s[i].0@ == k by {
            if k == s.last().0@ {
                assert(s[s.len() - 1].0@ == k);
            } else {
                assert(entries_map(s.drop_last()).contains_key(k));
                let i = choose|i: int| 0 <= i < s.drop_last().len() && s.drop_last()[i].0@ == k;
                assert(s[i].0@ == k);
            }
        }
        assert forall|k: Seq<char>|
            (exists|i: int| 0 <= i < s.len() && s[i].0@ == k) implies entries_map(s).contains_key(k) by {
            let i = choose|i: int| 0 <= i < s.len() && s[i].0@ == k;
            if i < s.len() - 1 {
                assert(s.drop_last()[i].0@ == k);
                assert(entries_map(s.drop_last()).contains_key(k));
            }
        }
    }
}

/// With distinct keys, each entry's value is the value of its key.
pub proof fn lemma_entries_map_index<V>(s: Seq<(String, V)>, i: int)
    requires
        keys_unique(s),
        0 <= i < s.len(),
    ensures
        entries_map(s).contains_key(s[i].0@),
        entries_map(s)[s[i].0@] == s[i].1,
    decreases s.len(),
{
    if i < s.len() - 1 {
        assert(s.drop_last()[i] == s[i]);
        lemma_entries_map_index(s.drop_last(), i);
    }
}

/// With distinct keys, replacing the value of one entry replaces the value
/// of its key.
pub proof fn lemma_entries_map_update<V>(s: Seq<(String, V)>, i: int, v: V)
    requires
        keys_unique(s),
        0 <= i < s.len(),
    ensures
        entries_map(s.update(i, (s[i].0, v))) =~= entries_map(s).insert(s[i].0@, v),
    decreases s.len(),
{
    let t = s.update(i, (s[i].0, v));
    if i == s.len() - 1 {
        assert(t.drop_last() =~= s.drop_last());
        lemma_entries_map_dom(s.drop_last());
    } else {
        assert(t.drop_last() =~= s.drop_last().update(i, (s[i].0, v)));
        lemma_entries_map_update(s.drop_last(), i, v);
    }
}

/// Entries with the keys of `s` and the values of `s` passed through `f`
/// denote the map of `s` with its values passed through `f`.
pub proof fn lemma_entries_map_values<V>(s: Seq<(String, V)>, t: Seq<(String, V)>, f: spec_fn(V) -> V)
    requires
        keys_unique(s),
        s.len() == t.len(),
        forall|i: int| #![trigger t[i]] 0 <= i < s.len() ==> t[i] == (s[i].0, f(s[i].1)),
    ensures
        keys_unique(t),
        entries_map(t) =~= Map::new(
            |k: Seq<char>| entries_map(s).contains_key(k),
            |k: Seq<char>| f(entries_map(s)[k]),
        ),
    decreases s.len(),
{
    if s.len() > 0 {
        assert forall|i: int| #![trigger t.drop_last()[i]]
            0 <= i < s.drop_last().len() implies t.drop_last()[i] == (
                s.drop_last()[i].0,
                f(s.drop_last()[i].1),
            ) by {
            assert(t[i] == (s[i].0, f(s[i].1)));
        }
        lemma_entries_map_values(s.drop_last(), t.drop_last(), f);
        assert(t[t.len() - 1] == (s[s.len() - 1].0, f(s[s.len() - 1].1)));
        lemma_entries_map_dom(s.drop_last());
        assert forall|a: int, b: int| 0 <= a < b < t.len() implies t[a].0@ != t[b].0@ by {
            assert(t[a] == (s[a].0, f(s[a].1)));
            assert(t[b] == (s[b].0, f(s[b].1)));
        }
    }
}

/// A map from strings to values.
pub struct StrMap<V> {
    entries: Vec<(String, V)>,
}

impl<V> View for StrMap<V> {
    type V = Map<Seq<char>, V>;

    closed spec fn view(&self) -> Map<Seq<char>, V> {
        entries_map(self.entries@)
    }
}

impl<V> StrMap<V> {
    /// The entries in their order; the map is `entries_map` of them.
    pub closed spec fn entries(&self) -> Seq<(String, V)> {
        self.entries@
    }

    /// Keys are distinct.
    pub closed spec fn wf(&self) -> bool {
        keys_unique(self.entries@)
    }

    pub proof fn lemma_view(&self)
        ensures
            self@ == entries_map(self.entries()),
            self.wf() == keys_unique(self.entries()),
    {
    }

    pub fn new() -> (m: Self)
        ensures
            m.wf(),
            m@ == Map::<Seq<char>, V>::empty(),
            m.entries().len() == 0,
    {
        StrMap { entries: Vec::new() }
    }

    pub fn len(&self) -> (n: usize)
        ensures
            n == self.entries().len(),
    {
        self.entries.len()
    }

    /// The position of the entry of `key`, if there is one.
    pub fn find(&self, key: &str) -> (r: Option<usize>)
        requires
            self.wf(),
        ensures
            r is None <==> !self@.contains_key(key@),
            r matches Some(i) ==> i < self.entries().len() && self.entries()[i as int].0@ == key@
                && self@[key@] == self.entries()[i as int].1,
    {
        let k = key.to_owned();
        let n = self.entries.len();
        let mut i: usize = 0;
        while i < n
            invariant
                n == self.entries@.len(),
                keys_unique(self.entries@),
                k@ == key@,
                0 <= i <= n,
                forall|j: int| 0 <= j < i ==> self.entries@[j].0@ != key@,
            decreases n - i,
        {
            if self.entries[i].0 == k {
                proof {
                    lemma_entries_map_index(self.entries@, i as int);
                }
                return Some(i);
            }
            i += 1;
        }
        proof {
            lemma_entries_map_dom(self.entries@);
        }
        None
    }

    /// The value of the entry at position `i`.
    pub fn value_at(&self, i: usize) -> (r: &V)
        requires
            i < self.entries().len(),
        ensures
            *r == self.entries()[i as int].1,
    {
        &self.entries[i].1
    }

    /// The key of the entry at position `i`.
    pub fn key_at(&self, i: usize) -> (r: &String)
        requires
            i < self.entries().len(),
        ensures
            *r == self.entries()[i as int].0,
    {
        &self.entries[i].0
    }

    /// Mutable access to the value at position `i`; the key stays.
    pub fn value_mut(&mut self, i: usize) -> (r: &mut V)
        requires
            i < old(self).entries().len(),
        ensures
            *r == old(self).entries()[i as int].1,
            final(self).entries() == old(self).entries().update(
                i as int,
                (old(self).entries()[i as int].0, *final(r)),
            ),
    {
        &mut self.entries[i].1
    }

    /// Adds an entry for a key that is not in the map yet.
    pub fn push_new(&mut self, key: &str, v: V)
        requires
            old(self).wf(),
            !old(self)@.contains_key(key@),
        ensures
            final(self).wf(),
            final(self)@ == old(self)@.insert(key@, v),
            final(self).entries() == old(self).entries().push((final(self).entries().last().0, v)),
            final(self).entries().last().0@ == key@,
    {
        proof {
            lemma_entries_map_dom(self.entries@);
        }
        let k = key.to_owned();
        let ghost before = self.entries@;
        self.entries.push((k, v));
        assert(self.entries@.drop_last() =~= before);
    }

    /// Sets the value of `key`, adding an entry when there is none.
    pub fn insert(&mut self, key: &str, v: V)
        requires
            old(self).wf(),
        ensures
            final(self).wf(),
            final(self)@ == old(self)@.insert(key@, v),
    {
        match self.find(key) {
            Some(i) => {
                let ghost before = self.entries@;
                let r = self.value_mut(i);
                *r = v;
                proof {
                    lemma_entries_map_update(before, i as int, v);
                }
            },
            None => {
                self.push_new(key, v);
            },
        }
    }

    /// The value of `key`, if there is one.
    pub fn get(&self, key: &str) -> (r: Option<&V>)
        requires
            self.wf(),
        ensures
            r is None <==> !self@.contains_key(key@),
            r matches Some(v) ==> *v == self@[key@],
    {
        match self.find(key) {
            Some(i) => Some(&self.entries[i].1),
            None => None,
        }
    }
}

/// Replacing the value at a position keeps the keys distinct and replaces
/// the value of that key in the map.
pub proof fn lemma_strmap_replace<V>(before: Seq<(String, V)>, after: Seq<(String, V)>, i: int, v: V)
    requires
        keys_unique(before),
        0 <= i < before.len(),
        after == before.update(i, (before[i].0, v)),
    ensures
        keys_unique(after),
        entries_map(after) == entries_map(before).insert(before[i].0@, v),
{
    lemma_entries_map_update(before, i, v);
}

} // verus!
