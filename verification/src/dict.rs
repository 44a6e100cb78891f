//! A small map from strings to values that keeps the order of insertion.

use vstd::prelude::*;

verus! {

/// The map that a list of entries stands for: a later entry wins over an
/// earlier one with the same key.
pub open spec fn entries_map<V: View>(entries: Seq<(String, V)>) -> Map<Seq<char>, V::V>
    decreases entries.len(),
{
    if entries.len() == 0 {
        Map::empty()
    } else {
        entries_map(entries.drop_last()).insert(entries.last().0@, entries.last().1@)
    }
}

/// Whether no key occurs twice in `entries`.
pub open spec fn distinct_keys<V>(entries: Seq<(String, V)>) -> bool {
    forall|i: int, j: int|
        0 <= i < entries.len() && 0 <= j < entries.len() && i != j ==> entries[i].0@
            != entries[j].0@
}

/// A map from strings to values. Each key occurs once; the entries stand in
/// the order in which their keys were first inserted.
#[derive(Debug)]
pub struct Dictionary<V> {
    entries: Vec<(String, V)>,
}

/// Entries with distinct keys give a map that holds exactly their keys, each
/// with its entry's value.
pub proof fn lemma_entries_map<V: View>(entries: Seq<(String, V)>)
    requires
        distinct_keys(entries),
    ensures
        forall|i: int|
            0 <= i < entries.len() ==> entries_map(entries).contains_key(#[trigger] entries[i].0@)
                && entries_map(entries)[entries[i].0@] == entries[i].1@,
        forall|k: Seq<char>| #[trigger]
            entries_map(entries).contains_key(k) ==> exists|i: int|
                0 <= i < entries.len() && entries[i].0@ == k,
    decreases entries.len(),
{
    if entries.len() > 0 {
        let front = entries.drop_last();
        lemma_entries_map(front);
        assert forall|i: int| 0 <= i < entries.len() implies entries_map(entries).contains_key(
            #[trigger] entries[i].0@,
        ) && entries_map(entries)[entries[i].0@] == entries[i].1@ by {
            if i < entries.len() - 1 {
                assert(front[i] == entries[i]);
                assert(entries[i].0@ != entries.last().0@);
            }
        }
        assert forall|k: Seq<char>| #[trigger]
            entries_map(entries).contains_key(k) implies exists|i: int|
            0 <= i < entries.len() && entries[i].0@ == k by {
            if k == entries.last().0@ {
                assert(entries[entries.len() - 1].0@ == k);
            } else {
                assert(entries_map(front).contains_key(k));
                let i = choose|i: int| 0 <= i < front.len() && front[i].0@ == k;
                assert(entries[i].0@ == k);
            }
        }
    }
}

impl<V: View> View for Dictionary<V> {
    type V = Map<Seq<char>, V::V>;

    closed spec fn view(&self) -> Map<Seq<char>, V::V> {
        entries_map(self.entries@)
    }
}

impl<V> Dictionary<V> {
    #[verifier::type_invariant]
    spec fn well_formed(self) -> bool {
        distinct_keys(self.entries@)
    }
}

impl<V: View> Dictionary<V> {
    /// The entries in order of insertion.
    pub closed spec fn items(self) -> Seq<(String, V)> {
        self.entries@
    }

    /// An empty map.
    pub fn new() -> (r: Dictionary<V>)
        ensures
            r@ == Map::<Seq<char>, V::V>::empty(),
            r.items().len() == 0,
    {
        Dictionary { entries: Vec::new() }
    }

    /// The map of `entries`: each key with the value of its last entry.
    pub fn from_entries(entries: Vec<(String, V)>) -> (r: Dictionary<V>)
        ensures
            r@ == entries_map(entries@),
    {
        let mut out: Dictionary<V> = Dictionary::new();
        let ghost all = entries@;
        for entry in it: entries
            invariant
                it.seq() == all,
                out@ == entries_map(all.take(it.index() as int)),
        {
            proof {
                let n = it.index() as int;
                assert(all.take(n + 1).drop_last() =~= all.take(n));
                assert(all.take(n + 1).last() == entry);
            }
            out.insert(entry.0, entry.1);
        }
        proof {
            assert(all.take(all.len() as int) =~= all);
        }
        out
    }

    /// The number of keys.
    pub fn len(&self) -> (r: usize)
        ensures
            r == self.items().len(),
            r == self@.dom().len(),
            self@.dom().finite(),
    {
        proof {
            use_type_invariant(self);
            lemma_domain_size(self.entries@);
        }
        self.entries.len()
    }

    /// Whether the map holds no key.
    pub fn is_empty(&self) -> (r: bool)
        ensures
            r == (self.items().len() == 0),
            r == (self@ == Map::<Seq<char>, V::V>::empty()),
    {
        proof {
            use_type_invariant(self);
            lemma_entries_map(self.entries@);
            if self.entries@.len() > 0 {
                assert(self@.contains_key(self.entries@[0].0@));
            }
        }
        self.entries.len() == 0
    }

    fn position(&self, key: &String) -> (r: Option<usize>)
        ensures
            match r {
                Some(i) => i < self.entries@.len() && self.entries@[i as int].0@ == key@,
                None => forall|i: int| 0 <= i < self.entries@.len() ==> self.entries@[i].0@ != key@,
            },
    {
        let mut i: usize = 0;
        while i < self.entries.len()
            invariant
                i <= self.entries@.len(),
                forall|k: int| 0 <= k < i ==> self.entries@[k].0@ != key@,
            decreases self.entries@.len() - i,
        {
            if self.entries[i].0 == *key {
                return Some(i);
            }
            i = i + 1;
        }
        None
    }

    /// Whether `key` is in the map.
    pub fn contains_key(&self, key: &String) -> (r: bool)
        ensures
            r == self@.contains_key(key@),
    {
        proof {
            use_type_invariant(self);
            lemma_entries_map(self.entries@);
        }
        self.position(key).is_some()
    }

    /// The value stored under `key`, if there is one.
    pub fn get(&self, key: &String) -> (r: Option<&V>)
        ensures
            match r {
                Some(v) => self@.contains_key(key@) && self@[key@] == v@,
                None => !self@.contains_key(key@),
            },
    {
        proof {
            use_type_invariant(self);
            lemma_entries_map(self.entries@);
        }
        match self.position(key) {
            Some(i) => Some(&self.entries[i].1),
            None => None,
        }
    }

    /// Stores `value` under `key`. A value that was stored under `key`
    /// before is replaced, and the key keeps its place in the order.
    pub fn insert(&mut self, key: String, value: V)
        ensures
            final(self)@ == old(self)@.insert(key@, value@),
            final(self).items().len() == if old(self)@.contains_key(key@) {
                old(self).items().len()
            } else {
                old(self).items().len() + 1
            },
    {
        proof {
            use_type_invariant(&*self);
            lemma_entries_map(self.entries@);
        }
        let found = self.position(&key);
        let mut taken: Dictionary<V> = Dictionary { entries: Vec::new() };
        core::mem::swap(self, &mut taken);
        let mut entries = taken.entries;
        let ghost before = entries@;
        let ghost k = key@;
        let ghost v = value@;
        match found {
            Some(i) => {
                entries.set(i, (key, value));
                proof {
                    let after = entries@;
                    assert(distinct_keys(after)) by {
                        assert forall|a: int, b: int|
                            0 <= a < after.len() && 0 <= b < after.len() && a != b implies after[a].0@
                            != after[b].0@ by {
                            assert(after[a].0@ == before[a].0@);
                            assert(after[b].0@ == before[b].0@);
                        }
                    }
                    lemma_entries_map(after);
                    assert(entries_map(after) =~= entries_map(before).insert(k, v)) by {
                        assert forall|q: Seq<char>| #[trigger]
                            entries_map(before).insert(k, v).contains_key(q) implies entries_map(
                            after,
                        ).contains_key(q) && entries_map(after)[q] == entries_map(before).insert(
                            k,
                            v,
                        )[q] by {
                            if q == k {
                                assert(after[i as int].0@ == k);
                            } else {
                                let j = choose|j: int| 0 <= j < before.len() && before[j].0@ == q;
                                assert(after[j] == before[j]);
                            }
                        }
                        assert forall|q: Seq<char>| #[trigger]
                            entries_map(after).contains_key(q) implies entries_map(before).insert(
                            k,
                            v,
                        ).contains_key(q) by {
                            let j = choose|j: int| 0 <= j < after.len() && after[j].0@ == q;
                            assert(before[j].0@ == q);
                        }
                    }
                }
            },
            None => {
                entries.push((key, value));
                proof {
                    let after = entries@;
                    assert(after.drop_last() =~= before);
                    assert(distinct_keys(after));
                }
            },
        }
        *self = Dictionary { entries };
    }

    /// The key and the value of the entry at `index`, in order of insertion.
    pub fn entry(&self, index: usize) -> (r: (&String, &V))
        requires
            index < self.items().len(),
        ensures
            *r.0 == self.items()[index as int].0,
            *r.1 == self.items()[index as int].1,
            self@.contains_key(r.0@),
            self@[r.0@] == r.1@,
    {
        proof {
            use_type_invariant(self);
            lemma_entries_map(self.entries@);
        }
        (&self.entries[index].0, &self.entries[index].1)
    }
}

impl Dictionary<String> {
    /// A copy of the map.
    pub fn duplicate(&self) -> (r: Dictionary<String>)
        ensures
            r@ == self@,
    {
        let mut entries: Vec<(String, String)> = Vec::new();
        let mut i: usize = 0;
        while i < self.entries.len()
            invariant
                i <= self.entries@.len(),
                entries@.len() == i,
                forall|k: int| 0 <= k < i ==> entries@[k] == self.entries@[k],
            decreases self.entries@.len() - i,
        {
            entries.push((self.entries[i].0.clone(), self.entries[i].1.clone()));
            i = i + 1;
        }
        proof {
            use_type_invariant(self);
            assert(entries@ =~= self.entries@);
        }
        Dictionary { entries }
    }
}

impl Dictionary<crate::json::JsonValue> {
    /// A copy of the map.
    pub fn duplicate(&self) -> (r: Dictionary<crate::json::JsonValue>)
        ensures
            r@ == self@,
    {
        let mut entries: Vec<(String, crate::json::JsonValue)> = Vec::new();
        let mut i: usize = 0;
        while i < self.entries.len()
            invariant
                i <= self.entries@.len(),
                entries@.len() == i,
                forall|k: int|
                    0 <= k < i ==> entries@[k].0 == self.entries@[k].0 && entries@[k].1@
                        == self.entries@[k].1@,
            decreases self.entries@.len() - i,
        {
            entries.push((self.entries[i].0.clone(), self.entries[i].1.duplicate()));
            i = i + 1;
        }
        proof {
            use_type_invariant(self);
            lemma_same_map(entries@, self.entries@);
        }
        Dictionary { entries }
    }
}

/// Lists that agree entry by entry, key for key and value for value, give
/// the same map.
pub proof fn lemma_same_map<V: View>(a: Seq<(String, V)>, b: Seq<(String, V)>)
    requires
        a.len() == b.len(),
        forall|k: int| 0 <= k < a.len() ==> a[k].0@ == b[k].0@ && a[k].1@ == b[k].1@,
    ensures
        entries_map(a) == entries_map(b),
        distinct_keys(b) ==> distinct_keys(a),
    decreases a.len(),
{
    if a.len() > 0 {
        lemma_same_map(a.drop_last(), b.drop_last());
    }
}

/// Entries with distinct keys give a finite map with one key for each.
pub proof fn lemma_domain_size<V: View>(entries: Seq<(String, V)>)
    requires
        distinct_keys(entries),
    ensures
        entries_map(entries).dom().finite(),
        entries_map(entries).dom().len() == entries.len(),
    decreases entries.len(),
{
    if entries.len() > 0 {
        let front = entries.drop_last();
        lemma_domain_size(front);
        lemma_entries_map(front);
        let k = entries.last().0@;
        if entries_map(front).contains_key(k) {
            let i = choose|i: int| 0 <= i < front.len() && front[i].0@ == k;
            assert(entries[i].0@ == k);
            assert(false);
        }
        assert(entries_map(entries).dom() =~= entries_map(front).dom().insert(k));
    }
}

} // verus!
