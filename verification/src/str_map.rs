//! A map from text keys to values that keeps its entries in the order in
//! which their keys were first inserted.

use vstd::prelude::*;

verus! {

/// Values that can be duplicated into an equal value.
pub trait Duplicate: Sized {
    fn duplicate(&self) -> (r: Self)
        ensures
            r == *self,
    ;
}

impl Duplicate for u64 {
    fn duplicate(&self) -> (r: Self) {
        *self
    }
}

impl Duplicate for String {
    fn duplicate(&self) -> (r: Self) {
        self.clone()
    }
}

/// A map from strings to values. Each key stands in it once; the entries keep
/// the order in which their keys were first inserted.
pub struct StrMap<V> {
    entries: Vec<(String, V)>,
}

/// Whether no key occurs twice among `pairs`.
pub open spec fn keys_distinct<V>(pairs: Seq<(Seq<char>, V)>) -> bool {
    forall|i: int, j: int|
        0 <= i < pairs.len() && 0 <= j < pairs.len() && i != j ==> #[trigger] pairs[i].0
            != #[trigger] pairs[j].0
}

/// Whether `key` is the key of one of `pairs`.
pub open spec fn has_key<V>(pairs: Seq<(Seq<char>, V)>, key: Seq<char>) -> bool {
    exists|i: int| 0 <= i < pairs.len() && #[trigger] pairs[i].0 == key
}

/// Entries with each key taken by its text.
pub open spec fn entries_view<V>(entries: Seq<(String, V)>) -> Seq<(Seq<char>, V)> {
    Seq::new(entries.len(), |i: int| (entries[i].0@, entries[i].1))
}

/// The map that a list of entries with distinct keys stands for.
pub open spec fn pairs_to_map<V>(pairs: Seq<(Seq<char>, V)>) -> Map<Seq<char>, V> {
    Map::new(
        |k: Seq<char>| has_key(pairs, k),
        |k: Seq<char>| pairs[choose|i: int| 0 <= i < pairs.len() && #[trigger] pairs[i].0 == k].1,
    )
}

/// In a list with distinct keys, the map holds each entry's value at its key.
pub proof fn lemma_pairs_to_map_index<V>(pairs: Seq<(Seq<char>, V)>, i: int)
    requires
        keys_distinct(pairs),
        0 <= i < pairs.len(),
    ensures
        pairs_to_map(pairs).contains_key(pairs[i].0),
        pairs_to_map(pairs)[pairs[i].0] == pairs[i].1,
{
    let k = pairs[i].0;
    assert(has_key(pairs, k));
    let j = choose|j: int| 0 <= j < pairs.len() && #[trigger] pairs[j].0 == k;
    assert(pairs[j].0 == k);
}

impl<V> StrMap<V> {
    /// The entries, each key taken by its text, in order.
    pub closed spec fn pairs(&self) -> Seq<(Seq<char>, V)> {
        entries_view(self.entries@)
    }

    #[verifier::type_invariant]
    closed spec fn wf(&self) -> bool {
        keys_distinct(self.pairs())
    }

    /// The empty map.
    pub fn new() -> (m: Self)
        ensures
            m.pairs() == Seq::<(Seq<char>, V)>::empty(),
            m@ == Map::<Seq<char>, V>::empty(),
    {
        let m = StrMap { entries: Vec::new() };
        assert(m.pairs() =~= Seq::<(Seq<char>, V)>::empty());
        assert(m@ =~= Map::<Seq<char>, V>::empty());
        m
    }

    /// The number of entries.
    pub fn len(&self) -> (n: usize)
        ensures
            n == self.pairs().len(),
            keys_distinct(self.pairs()),
    {
        proof {
            use_type_invariant(self);
        }
        self.entries.len()
    }

    /// The key of the entry at `index`.
    pub fn key_at(&self, index: usize) -> (key: &String)
        requires
            index < self.pairs().len(),
        ensures
            key@ == self.pairs()[index as int].0,
    {
        &self.entries[index].0
    }

    /// The value of the entry at `index`.
    pub fn value_at(&self, index: usize) -> (value: &V)
        requires
            index < self.pairs().len(),
        ensures
            *value == self.pairs()[index as int].1,
    {
        &self.entries[index].1
    }

    /// The position of the entry for `key`, if there is one.
    fn find(&self, key: &str) -> (pos: Option<usize>)
        ensures
            match pos {
                Some(i) => i < self.pairs().len() && self.pairs()[i as int].0 == key@,
                None => !has_key(self.pairs(), key@),
            },
    {
        let k: String = key.to_owned();
        let mut i: usize = 0;
        while i < self.entries.len()
            invariant
                i <= self.entries.len(),
                k@ == key@,
                forall|j: int| 0 <= j < i ==> #[trigger] self.pairs()[j].0 != key@,
            decreases self.entries.len() - i,
        {
            if self.entries[i].0 == k {
                return Some(i);
            }
            i = i + 1;
        }
        None
    }

    /// The value stored for `key`, if any.
    pub fn get(&self, key: &str) -> (value: Option<&V>)
        ensures
            match value {
                Some(v) => self@.contains_key(key@) && *v == self@[key@],
                None => !self@.contains_key(key@),
            },
    {
        proof {
            use_type_invariant(self);
        }
        match self.find(key) {
            Some(i) => {
                proof {
                    lemma_pairs_to_map_index(self.pairs(), i as int);
                }
                Some(&self.entries[i].1)
            },
            None => None,
        }
    }

    /// Stores `value` for `key`: the entry of `key` takes the new value where
    /// there is one, else a new entry is added last.
    pub fn insert(&mut self, key: String, value: V)
        ensures
            final(self)@ == old(self)@.insert(key@, value),
            has_key(old(self).pairs(), key@) ==> exists|i: int|
                0 <= i < old(self).pairs().len() && old(self).pairs()[i].0 == key@
                    && final(self).pairs() == old(self).pairs().update(i, (key@, value)),
            !has_key(old(self).pairs(), key@) ==> final(self).pairs() == old(self).pairs().push(
                (key@, value),
            ),
    {
        proof {
            use_type_invariant(&*self);
        }
        let ghost old_pairs = self.pairs();
        let pos = self.find(key.as_str());
        let mut entries: Vec<(String, V)> = Vec::new();
        std::mem::swap(&mut entries, &mut self.entries);
        assert(entries_view(entries@) == old_pairs);
        let ghost kv = key@;
        match pos {
            Some(i) => {
                entries.set(i, (key, value));
                let ghost new_pairs = entries_view(entries@);
                assert(new_pairs =~= old_pairs.update(i as int, (kv, value)));
                assert(keys_distinct(new_pairs));
                self.entries = entries;
                proof {
                    assert(self.pairs() == new_pairs);
                    assert(self@ =~= old(self)@.insert(kv, value)) by {
                        assert forall|k: Seq<char>| #[trigger] self@.contains_key(k) implies old(self)@.insert(kv, value).contains_key(k) by {
                            let j = choose|j: int| 0 <= j < new_pairs.len() && #[trigger] new_pairs[j].0 == k;
                            assert(old_pairs[j].0 == k || j == i);
                        }
                        assert forall|k: Seq<char>| #[trigger] old(self)@.insert(kv, value).contains_key(k) implies self@.contains_key(k) && self@[k] == old(self)@.insert(kv, value)[k] by {
                            if k == kv {
                                lemma_pairs_to_map_index(new_pairs, i as int);
                            } else {
                                let j = choose|j: int| 0 <= j < old_pairs.len() && #[trigger] old_pairs[j].0 == k;
                                lemma_pairs_to_map_index(old_pairs, j);
                                lemma_pairs_to_map_index(new_pairs, j);
                            }
                        }
                    }
                }
            },
            None => {
                entries.push((key, value));
                let ghost new_pairs = entries_view(entries@);
                assert(new_pairs =~= old_pairs.push((kv, value)));
                assert(keys_distinct(new_pairs));
                self.entries = entries;
                proof {
                    assert(self.pairs() == new_pairs);
                    assert(self@ =~= old(self)@.insert(kv, value)) by {
                        assert forall|k: Seq<char>| #[trigger] self@.contains_key(k) implies old(self)@.insert(kv, value).contains_key(k) by {
                            let j = choose|j: int| 0 <= j < new_pairs.len() && #[trigger] new_pairs[j].0 == k;
                            if j < old_pairs.len() {
                                assert(old_pairs[j].0 == k);
                            }
                        }
                        assert forall|k: Seq<char>| #[trigger] old(self)@.insert(kv, value).contains_key(k) implies self@.contains_key(k) && self@[k] == old(self)@.insert(kv, value)[k] by {
                            if k == kv {
                                lemma_pairs_to_map_index(new_pairs, old_pairs.len() as int);
                            } else {
                                let j = choose|j: int| 0 <= j < old_pairs.len() && #[trigger] old_pairs[j].0 == k;
                                lemma_pairs_to_map_index(old_pairs, j);
                                lemma_pairs_to_map_index(new_pairs, j);
                            }
                        }
                    }
                }
            },
        }
    }
}

impl<V> View for StrMap<V> {
    type V = Map<Seq<char>, V>;

    open spec fn view(&self) -> Map<Seq<char>, V> {
        pairs_to_map(self.pairs())
    }
}

impl<V: Duplicate> StrMap<V> {
    /// A map with the same entries, in the same order.
    pub fn duplicate_map(&self) -> (m: Self)
        ensures
            m.pairs() == self.pairs(),
            m@ == self@,
    {
        proof {
            use_type_invariant(self);
        }
        let mut entries: Vec<(String, V)> = Vec::new();
        let mut i: usize = 0;
        while i < self.entries.len()
            invariant
                i <= self.entries.len(),
                entries@.len() == i,
                entries_view(entries@) == self.pairs().take(i as int),
            decreases self.entries.len() - i,
        {
            let ghost before = entries@;
            let k = self.entries[i].0.clone();
            let v = self.entries[i].1.duplicate();
            assert((k@, v) == self.pairs()[i as int]);
            entries.push((k, v));
            assert(entries@ == before.push((k, v)));
            assert forall|j: int| 0 <= j <= i implies #[trigger] entries_view(entries@)[j] == self.pairs()[j] by {
                if j < i {
                    assert(entries_view(before)[j] == self.pairs().take(i as int)[j]);
                }
            }
            i = i + 1;
            assert(entries_view(entries@) =~= self.pairs().take(i as int));
        }
        assert(self.pairs().take(i as int) =~= self.pairs());
        StrMap { entries }
    }
}

} // verus!

verus! {

/// A read gives back what a write wrote: after `insert(key, value)` (whose
/// view is `before@.insert(key, value)`), `get(key)` finds `value`, and every
/// other key finds what it found before.
pub proof fn lemma_get_after_insert<V>(
    before: StrMap<V>,
    after: StrMap<V>,
    key: Seq<char>,
    value: V,
    other: Seq<char>,
)
    requires
        after@ == before@.insert(key, value),
    ensures
        after@.contains_key(key),
        after@[key] == value,
        other != key ==> (after@.contains_key(other) <==> before@.contains_key(other)),
        other != key && before@.contains_key(other) ==> after@[other] == before@[other],
{
}

} // verus!
