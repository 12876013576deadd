//! A map from strings to values, kept as a list of entries with distinct keys.
use vstd::prelude::*;
use crate::element::str_equal;

verus! {

/// A map keyed by strings; each key occurs in at most one entry.
#[derive(Debug)]
pub struct KeyedMap<V> {
    pub entries: Vec<(String, V)>,
}

impl<V> KeyedMap<V> {
    /// The keys of the entries, in order.
    pub open spec fn keys(&self) -> Seq<Seq<char>> {
        self.entries@.map_values(|e: (String, V)| e.0@)
    }

    /// No key occurs twice.
    pub open spec fn wf(&self) -> bool {
        self.keys().no_duplicates()
    }

    /// The position of the entry with key `k`.
    pub open spec fn index_of_key(&self, k: Seq<char>) -> int {
        choose|i: int| 0 <= i < self.entries@.len() && self.entries@[i].0@ == k
    }

    /// The map that the entries describe.
    pub open spec fn view(&self) -> Map<Seq<char>, V> {
        Map::new(
            |k: Seq<char>| self.keys().contains(k),
            |k: Seq<char>| self.entries@[self.index_of_key(k)].1,
        )
    }

    /// The entry at position `i` gives the value of its key.
    pub proof fn lemma_entry(&self, i: int)
        requires
            self.wf(),
            0 <= i < self.entries@.len(),
        ensures
            self.view().contains_key(self.entries@[i].0@),
            self.view()[self.entries@[i].0@] == self.entries@[i].1,
            self.index_of_key(self.entries@[i].0@) == i,
    {
        let k = self.entries@[i].0@;
        assert(self.keys()[i] == k);
        let j = self.index_of_key(k);
        assert(self.keys()[j] == k);
    }

    /// Every key of the map is the key of some entry.
    pub proof fn lemma_key(&self, k: Seq<char>)
        requires
            self.view().contains_key(k),
        ensures
            0 <= self.index_of_key(k) < self.entries@.len(),
            self.entries@[self.index_of_key(k)].0@ == k,
    {
        let i = choose|i: int| 0 <= i < self.keys().len() && self.keys()[i] == k;
        assert(self.entries@[i].0@ == k);
    }

    /// The number of keys is the number of entries.
    pub proof fn lemma_len(&self)
        requires
            self.wf(),
        ensures
            self.view().len() == self.entries@.len(),
            self.view().dom().finite(),
    {
        assert(self.view().dom() =~= self.keys().to_set());
        self.keys().unique_seq_to_set();
    }

    /// The map that the first `i` entries describe.
    pub open spec fn prefix(&self, i: int) -> Map<Seq<char>, V> {
        Map::new(
            |k: Seq<char>| self.keys().subrange(0, i).contains(k),
            |k: Seq<char>| self.view()[k],
        )
    }

    /// The first `i + 1` entries describe the first `i` and the entry at `i`.
    pub proof fn lemma_prefix_step(&self, i: int)
        requires
            self.wf(),
            0 <= i < self.entries@.len(),
        ensures
            !self.prefix(i).contains_key(self.entries@[i].0@),
            self.prefix(i + 1) == self.prefix(i).insert(self.entries@[i].0@, self.entries@[i].1),
    {
        self.lemma_entry(i);
        let k = self.entries@[i].0@;
        let ks = self.keys();
        assert(ks.subrange(0, i + 1) =~= ks.subrange(0, i).push(k));
        if ks.subrange(0, i).contains(k) {
            let sub = ks.subrange(0, i);
            let j = choose|j: int| 0 <= j < sub.len() && #[trigger] sub[j] == k;
            assert(ks[j] == ks[i]);
        }
        assert forall|x: Seq<char>| #[trigger] self.prefix(i + 1).contains_key(x) implies self.view().contains_key(x) by {
            let sub = ks.subrange(0, i + 1);
            let j = choose|j: int| 0 <= j < sub.len() && #[trigger] sub[j] == x;
            assert(ks[j] == x);
        }
        assert forall|x: Seq<char>|
            #[trigger] self.prefix(i + 1).contains_key(x) <==> self.prefix(i).insert(
                k,
                self.entries@[i].1,
            ).contains_key(x) by {
            let s1 = ks.subrange(0, i + 1);
            let s0 = ks.subrange(0, i);
            if s1.contains(x) {
                let j = choose|j: int| 0 <= j < s1.len() && #[trigger] s1[j] == x;
                if j < i {
                    assert(s0[j] == x);
                }
            }
            if s0.contains(x) {
                let j = choose|j: int| 0 <= j < s0.len() && #[trigger] s0[j] == x;
                assert(s1[j] == x);
            }
            if x == k {
                assert(s1[i] == x);
            }
        }
        assert(self.prefix(i + 1) =~= self.prefix(i).insert(k, self.entries@[i].1));
    }

    /// No entries describe the empty map, and all of them describe the whole map.
    pub proof fn lemma_prefix_ends(&self)
        ensures
            self.prefix(0) == Map::<Seq<char>, V>::empty(),
            self.prefix(self.entries@.len() as int) == self.view(),
    {
        assert(self.prefix(0) =~= Map::<Seq<char>, V>::empty());
        assert(self.keys().subrange(0, self.entries@.len() as int) =~= self.keys());
        assert(self.prefix(self.entries@.len() as int) =~= self.view());
    }

    /// An empty map.
    pub fn new() -> (r: Self)
        ensures
            r.wf(),
            r@ == Map::<Seq<char>, V>::empty(),
    {
        let r = KeyedMap { entries: Vec::new() };
        assert(r.keys() =~= Seq::<Seq<char>>::empty());
        assert(r@ =~= Map::<Seq<char>, V>::empty());
        r
    }

    /// The number of keys.
    pub fn len(&self) -> (r: usize)
        requires
            self.wf(),
        ensures
            r == self@.len(),
    {
        proof {
            self.lemma_len();
        }
        self.entries.len()
    }

    /// The position of the entry with key `key`, if there is one.
    pub fn find(&self, key: &str) -> (r: Option<usize>)
        requires
            self.wf(),
        ensures
            match r {
                Some(i) => i < self.entries@.len() && self.entries@[i as int].0@ == key@,
                None => !self@.contains_key(key@),
            },
    {
        let n = self.entries.len();
        let mut i: usize = 0;
        while i < n
            invariant
                n == self.entries@.len(),
                i <= n,
                forall|j: int| 0 <= j < i ==> self.entries@[j].0@ != key@,
            decreases n - i,
        {
            if str_equal(self.entries[i].0.as_str(), key) {
                return Some(i);
            }
            i = i + 1;
        }
        proof {
            if self.keys().contains(key@) {
                let j = choose|j: int| 0 <= j < self.keys().len() && self.keys()[j] == key@;
                assert(self.entries@[j].0@ == key@);
            }
        }
        None
    }

    /// The value of `key`, if it has one.
    pub fn get(&self, key: &str) -> (r: Option<&V>)
        requires
            self.wf(),
        ensures
            match r {
                Some(v) => self@.contains_key(key@) && *v == self@[key@],
                None => !self@.contains_key(key@),
            },
    {
        match self.find(key) {
            Some(i) => {
                proof {
                    self.lemma_entry(i as int);
                }
                Some(&self.entries[i].1)
            },
            None => None,
        }
    }

    /// Whether `key` has a value.
    pub fn contains_key(&self, key: &str) -> (r: bool)
        requires
            self.wf(),
        ensures
            r == self@.contains_key(key@),
    {
        match self.find(key) {
            Some(i) => {
                proof {
                    self.lemma_entry(i as int);
                }
                true
            },
            None => false,
        }
    }

    /// Gives `key` the value `value`, replacing any value it had.
    pub fn insert(&mut self, key: String, value: V)
        requires
            old(self).wf(),
        ensures
            final(self).wf(),
            final(self)@ == old(self)@.insert(key@, value),
    {
        let ghost old_map = *self;
        let ghost k = key@;
        match self.find(key.as_str()) {
            Some(i) => {
                self.entries.set(i, (key, value));
                proof {
                    assert(self.keys() =~= old_map.keys().update(i as int, k));
                    assert forall|a: int, b: int|
                        0 <= a < b < self.keys().len() implies self.keys()[a] != self.keys()[b] by {
                        assert(old_map.keys()[a] != old_map.keys()[b]);
                    }
                    assert forall|x: Seq<char>|
                        #[trigger] self@.contains_key(x) implies self@[x] == old_map@.insert(
                            k,
                            value,
                        )[x] by {
                        self.lemma_key(x);
                        let j = self.index_of_key(x);
                        self.lemma_entry(j);
                        if j != i {
                            assert(self.entries@[j] == old_map.entries@[j]);
                            old_map.lemma_entry(j);
                            assert(self.keys()[j] != self.keys()[i as int]);
                        }
                    }
                    assert forall|x: Seq<char>|
                        #[trigger] old_map@.insert(k, value).contains_key(x) implies self@.contains_key(x) by {
                        if x != k {
                            old_map.lemma_key(x);
                            let j = old_map.index_of_key(x);
                            assert(self.keys()[j] == x);
                        } else {
                            assert(self.keys()[i as int] == x);
                        }
                    }
                    assert(self@ =~= old_map@.insert(k, value));
                }
            },
            None => {
                self.entries.push((key, value));
                proof {
                    assert(self.keys() =~= old_map.keys().push(k));
                    assert(!old_map.keys().contains(k));
                    let n = old_map.entries@.len() as int;
                    assert forall|a: int, b: int|
                        0 <= a < b < self.keys().len() implies self.keys()[a] != self.keys()[b] by {
                        if b == n {
                            assert(old_map.keys()[a] != k);
                        } else {
                            assert(old_map.keys()[a] != old_map.keys()[b]);
                        }
                    }
                    assert forall|x: Seq<char>|
                        #[trigger] self@.contains_key(x) implies self@[x] == old_map@.insert(
                            k,
                            value,
                        )[x] by {
                        self.lemma_key(x);
                        let j = self.index_of_key(x);
                        self.lemma_entry(j);
                        if j != n {
                            old_map.lemma_entry(j);
                        }
                    }
                    assert forall|x: Seq<char>|
                        #[trigger] old_map@.insert(k, value).contains_key(x) implies self@.contains_key(x) by {
                        if x != k {
                            old_map.lemma_key(x);
                            let j = old_map.index_of_key(x);
                            assert(self.keys()[j] == x);
                        } else {
                            assert(self.keys()[n] == x);
                        }
                    }
                    assert(self@ =~= old_map@.insert(k, value));
                }
            },
        }
    }

    /// Takes away the value of `key`, if it has one.
    pub fn remove(&mut self, key: &str)
        requires
            old(self).wf(),
        ensures
            final(self).wf(),
            final(self)@ == old(self)@.remove(key@),
    {
        let ghost old_map = *self;
        match self.find(key) {
            Some(i) => {
                let _ = self.entries.remove(i);
                proof {
                    let ii = i as int;
                    assert(self.keys() =~= old_map.keys().remove(ii));
                    assert forall|a: int, b: int|
                        0 <= a < b < self.keys().len() implies self.keys()[a] != self.keys()[b] by {
                        let oa = if a < ii { a } else { a + 1 };
                        let ob = if b < ii { b } else { b + 1 };
                        assert(old_map.keys()[oa] != old_map.keys()[ob]);
                    }
                    assert forall|x: Seq<char>|
                        #[trigger] self@.contains_key(x) implies old_map@.remove(key@).contains_key(x)
                            && self@[x] == old_map@.remove(key@)[x] by {
                        self.lemma_key(x);
                        let j = self.index_of_key(x);
                        self.lemma_entry(j);
                        let oj = if j < ii { j } else { j + 1 };
                        assert(old_map.entries@[oj] == self.entries@[j]);
                        old_map.lemma_entry(oj);
                        assert(old_map.keys()[oj] != old_map.keys()[ii]);
                    }
                    assert forall|x: Seq<char>|
                        #[trigger] old_map@.remove(key@).contains_key(x) implies self@.contains_key(x) by {
                        old_map.lemma_key(x);
                        let j = old_map.index_of_key(x);
                        assert(j != ii);
                        let nj = if j < ii { j } else { j - 1 };
                        assert(self.keys()[nj] == x);
                    }
                    assert(self@ =~= old_map@.remove(key@));
                }
            },
            None => {
                assert(self@ =~= old_map@.remove(key@));
            },
        }
    }
}

} // verus!
