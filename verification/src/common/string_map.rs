//! A map keyed by strings, stored as a vector of entries whose keys are pairwise distinct.

use vstd::prelude::*;

verus! {

/// A collection of values keyed by unique string identifiers.
pub struct StringMap<V> {
    entries: Vec<(String, V)>,
    contents: Ghost<Map<Seq<char>, V>>,
}

impl<V> View for StringMap<V> {
    type V = Map<Seq<char>, V>;

    closed spec fn view(&self) -> Map<Seq<char>, V> {
        self.contents@
    }
}

/// The entries agree with the map, and no key occurs twice.
spec fn entries_match<V>(entries: Seq<(String, V)>, contents: Map<Seq<char>, V>) -> bool {
    &&& forall|i: int|
        0 <= i < entries.len() ==> {
            &&& #[trigger] contents.dom().contains(entries[i].0@)
            &&& contents[entries[i].0@] == entries[i].1
        }
    &&& forall|k: Seq<char>|
        #[trigger] contents.dom().contains(k) ==> exists|i: int|
            0 <= i < entries.len() && entries[i].0@ == k
    &&& forall|i: int, j: int| 0 <= i < j < entries.len() ==> entries[i].0@ != entries[j].0@
}

impl<V> StringMap<V> {
    #[verifier::type_invariant]
    spec fn inv(self) -> bool {
        entries_match(self.entries@, self.contents@)
    }

    /// The entries, in the order their keys were first inserted.
    pub closed spec fn entry_seq(&self) -> Seq<(String, V)> {
        self.entries@
    }

    /// An empty map.
    pub fn new() -> (m: Self)
        ensures
            m@ == Map::<Seq<char>, V>::empty(),
            m.entry_seq().len() == 0,
    {
        StringMap { entries: Vec::new(), contents: Ghost(Map::empty()) }
    }

    /// The number of keys.
    pub fn len(&self) -> (n: usize)
        ensures
            self@.dom().finite(),
            n == self@.dom().len(),
            n == self.entry_seq().len(),
    {
        proof {
            use_type_invariant(self);
            lemma_dom_len(self.entries@, self.contents@);
        }
        self.entries.len()
    }

    fn position(&self, key: &String) -> (r: Option<usize>)
        ensures
            match r {
                Some(i) => i < self.entries@.len() && self.entries@[i as int].0@ == key@
                    && self@.dom().contains(key@) && self@[key@] == self.entries@[i as int].1,
                None => !self@.dom().contains(key@),
            },
    {
        proof {
            use_type_invariant(self);
        }
        let n = self.entries.len();
        let mut i: usize = 0;
        while i < n
            invariant
                n == self.entries@.len(),
                i <= n,
                entries_match(self.entries@, self.contents@),
                forall|j: int| 0 <= j < i ==> self.entries@[j].0@ != key@,
            decreases n - i,
        {
            if self.entries[i].0 == *key {
                assert(self.contents@.dom().contains(self.entries@[i as int].0@));
                return Some(i);
            }
            i = i + 1;
        }
        None
    }

    /// Looks a key up.
    pub fn get(&self, key: &String) -> (r: Option<&V>)
        ensures
            match r {
                Some(v) => self@.dom().contains(key@) && *v == self@[key@],
                None => !self@.dom().contains(key@),
            },
    {
        match self.position(key) {
            Some(i) => Some(&self.entries[i].1),
            None => None,
        }
    }

    /// Whether the key is present.
    pub fn contains_key(&self, key: &String) -> (b: bool)
        ensures
            b == self@.dom().contains(key@),
    {
        self.position(key).is_some()
    }

    /// Sets the value under `key`, replacing any earlier one. A new key goes after all
    /// present ones; a present key keeps its place.
    pub fn insert(&mut self, key: String, value: V)
        ensures
            final(self)@ == old(self)@.insert(key@, value),
            old(self)@.dom().contains(key@) ==> exists|i: int|
                0 <= i < old(self).entry_seq().len() && old(self).entry_seq()[i].0@ == key@
                && final(self).entry_seq() == old(self).entry_seq().update(i, (key, value)),
            !old(self)@.dom().contains(key@) ==> final(self).entry_seq() == old(self).entry_seq().push((key, value)),
    {
        let pos = self.position(&key);
        let mut this = StringMap::new();
        std::mem::swap(&mut this, self);
        proof {
            use_type_invariant(&this);
        }
        let StringMap { entries, contents } = this;
        let mut entries = entries;
        let ghost k = key@;
        let ghost old_entries = entries@;
        let ghost new_map = contents@.insert(k, value);
        match pos {
            Some(i) => {
                entries.set(i, (key, value));
                assert forall|j: int| 0 <= j < entries@.len() implies {
                    &&& #[trigger] new_map.dom().contains(entries@[j].0@)
                    &&& new_map[entries@[j].0@] == entries@[j].1
                } by {
                    if j != i {
                        assert(contents@.dom().contains(old_entries[j].0@));
                    }
                }
                assert forall|k2: Seq<char>| #[trigger] new_map.dom().contains(k2) implies exists|j: int|
                    0 <= j < entries@.len() && entries@[j].0@ == k2 by {
                    if k2 != k {
                        let j = choose|j: int| 0 <= j < old_entries.len() && old_entries[j].0@ == k2;
                        assert(entries@[j].0@ == k2);
                    } else {
                        assert(entries@[i as int].0@ == k2);
                    }
                }
                assert forall|a: int, b: int| 0 <= a < b < entries@.len() implies
                    entries@[a].0@ != entries@[b].0@ by {
                    assert(old_entries[a].0@ != old_entries[b].0@);
                }
            },
            None => {
                entries.push((key, value));
                let ghost n = old_entries.len();
                assert forall|j: int| 0 <= j < entries@.len() implies {
                    &&& #[trigger] new_map.dom().contains(entries@[j].0@)
                    &&& new_map[entries@[j].0@] == entries@[j].1
                } by {
                    if j < n {
                        assert(contents@.dom().contains(old_entries[j].0@));
                        assert(entries@[j] == old_entries[j]);
                    }
                }
                assert forall|k2: Seq<char>| #[trigger] new_map.dom().contains(k2) implies exists|j: int|
                    0 <= j < entries@.len() && entries@[j].0@ == k2 by {
                    if k2 != k {
                        let j = choose|j: int| 0 <= j < old_entries.len() && old_entries[j].0@ == k2;
                        assert(entries@[j].0@ == k2);
                    } else {
                        assert(entries@[n as int].0@ == k2);
                    }
                }
                assert forall|a: int, b: int| 0 <= a < b < entries@.len() implies
                    entries@[a].0@ != entries@[b].0@ by {
                    assert(entries@[a] == old_entries[a]);
                    if b < n {
                        assert(entries@[b] == old_entries[b]);
                    } else {
                        assert(contents@.dom().contains(old_entries[a].0@));
                    }
                }
            },
        }
        *self = StringMap { entries, contents: Ghost(new_map) };
        proof {
            if old(self)@.dom().contains(k) {
                let i = pos->0 as int;
                assert(old(self).entry_seq() == old_entries);
                assert(old(self).entry_seq()[i].0@ == k);
                assert(self.entry_seq() =~= old(self).entry_seq().update(i, (key, value)));
            }
        }
    }

    /// The entries, in the order their keys were first inserted.
    pub fn entries(&self) -> (r: &Vec<(String, V)>)
        ensures
            r@ == self.entry_seq(),
            forall|i: int|
                0 <= i < r@.len() ==> #[trigger] self@.dom().contains(r@[i].0@) && self@[r@[i].0@] == r@[i].1,
            forall|k: Seq<char>|
                #[trigger] self@.dom().contains(k) ==> exists|i: int| 0 <= i < r@.len() && r@[i].0@ == k,
            forall|i: int, j: int| 0 <= i < j < r@.len() ==> r@[i].0@ != r@[j].0@,
    {
        proof {
            use_type_invariant(self);
        }
        &self.entries
    }
}

proof fn lemma_dom_len<V>(entries: Seq<(String, V)>, contents: Map<Seq<char>, V>)
    requires
        entries_match(entries, contents),
    ensures
        contents.dom().finite(),
        contents.dom().len() == entries.len(),
{
    let keys = entries.map_values(|e: (String, V)| e.0@);
    assert(contents.dom() =~= keys.to_set()) by {
        assert forall|k: Seq<char>| contents.dom().contains(k) implies keys.to_set().contains(k) by {
            let i = choose|i: int| 0 <= i < entries.len() && entries[i].0@ == k;
            assert(keys[i] == k);
        }
        assert forall|k: Seq<char>| keys.to_set().contains(k) implies contents.dom().contains(k) by {
            let i = choose|i: int| 0 <= i < keys.len() && keys[i] == k;
            assert(contents.dom().contains(entries[i].0@));
        }
    }
    assert(keys.no_duplicates()) by {
        assert forall|i: int, j: int| 0 <= i < keys.len() && 0 <= j < keys.len() && i != j
            implies keys[i] != keys[j] by {
            if i < j {
                assert(entries[i].0@ != entries[j].0@);
            } else {
                assert(entries[j].0@ != entries[i].0@);
            }
        }
    }
    keys.unique_seq_to_set();
}

} // verus!
