//! A small map from text keys to values, kept as a list of entries with
//! distinct keys. Sessions, rate-limit windows and WebSocket connections are
//! kept in it.
use vstd::prelude::*;
use crate::text::str_eq;

verus! {

/// Entry `i` of `s` has the key `k`.
pub open spec fn key_at<V>(s: Seq<(String, V)>, k: Seq<char>, i: int) -> bool {
    0 <= i < s.len() && s[i].0@ == k
}

/// No two entries share a key.
pub open spec fn distinct_keys<V>(s: Seq<(String, V)>) -> bool {
    forall|i: int, j: int| 0 <= i < s.len() && 0 <= j < s.len() && #[trigger] s[i].0@ == #[trigger] s[j].0@ ==> i == j
}

/// The map that a list of entries stands for.
pub open spec fn assoc_map<V>(s: Seq<(String, V)>) -> Map<Seq<char>, V> {
    Map::new(
        |k: Seq<char>| exists|i: int| key_at(s, k, i),
        |k: Seq<char>| s[choose|i: int| key_at(s, k, i)].1,
    )
}

/// The keys of a list of entries, in order.
pub open spec fn keys_of<V>(s: Seq<(String, V)>) -> Seq<Seq<char>> {
    s.map_values(|p: (String, V)| p.0@)
}

/// In a list with distinct keys, the entry at a key is the map's value there.
pub proof fn lemma_assoc_lookup<V>(s: Seq<(String, V)>, i: int)
    requires
        distinct_keys(s),
        0 <= i < s.len(),
    ensures
        assoc_map(s).contains_key(s[i].0@),
        assoc_map(s)[s[i].0@] == s[i].1,
{
    let k = s[i].0@;
    assert(key_at(s, k, i));
    let j = choose|j: int| key_at(s, k, j);
    assert(s[j].0@ == s[i].0@);
}

/// A map from text keys, kept as a list of entries with distinct keys.
#[derive(Debug)]
pub struct Store<V> {
    items: Vec<(String, V)>,
}

impl<V> View for Store<V> {
    type V = Map<Seq<char>, V>;

    closed spec fn view(&self) -> Map<Seq<char>, V> {
        assoc_map(self.items@)
    }
}

impl<V> Store<V> {
    /// The entries, in the order they were first inserted.
    pub closed spec fn entries(&self) -> Seq<(String, V)> {
        self.items@
    }

    /// The store is well formed: its keys are distinct. Every store is.
    #[verifier::type_invariant]
    pub closed spec fn wf(&self) -> bool {
        distinct_keys(self.items@)
    }

    /// The map and the entries agree.
    pub proof fn lemma_view(&self)
        requires
            self.wf(),
        ensures
            distinct_keys(self.entries()),
            self@ == assoc_map(self.entries()),
            forall|i: int| 0 <= i < self.entries().len() ==> #[trigger] self@.contains_key(self.entries()[i].0@)
                && self@[self.entries()[i].0@] == self.entries()[i].1,
            forall|k: Seq<char>| #[trigger] self@.contains_key(k) ==> exists|i: int| key_at(self.entries(), k, i),
    {
        assert forall|i: int| 0 <= i < self.entries().len() implies #[trigger] self@.contains_key(self.entries()[i].0@)
            && self@[self.entries()[i].0@] == self.entries()[i].1 by {
            lemma_assoc_lookup(self.items@, i);
        }
        assert forall|k: Seq<char>| #[trigger] self@.contains_key(k) implies exists|i: int| key_at(self.entries(), k, i) by {
            assert(assoc_map(self.items@).dom().contains(k));
            assert(exists|i: int| key_at(self.items@, k, i));
            let i = choose|i: int| key_at(self.items@, k, i);
            assert(key_at(self.entries(), k, i));
        }
    }

    /// An empty store.
    pub fn new() -> (r: Self)
        ensures
            r@ == Map::<Seq<char>, V>::empty(),
    {
        let r = Store { items: Vec::new() };
        assert(r@ =~= Map::<Seq<char>, V>::empty());
        r
    }

    /// The index of the entry with key `key`, if there is one.
    fn find(&self, key: &str) -> (r: Option<usize>)
        ensures
            r matches Some(i) ==> key_at(self.items@, key@, i as int),
            r is None ==> !exists|i: int| key_at(self.items@, key@, i),
    {
        let n = self.items.len();
        for i in 0..n
            invariant
                n == self.items@.len(),
                forall|j: int| 0 <= j < i ==> !key_at(self.items@, key@, j),
        {
            if str_eq(self.items[i].0.as_str(), key) {
                return Some(i);
            }
        }
        None
    }

    /// The number of entries.
    pub fn len(&self) -> (r: usize)
        ensures
            r == self@.dom().len(),
            r == self.entries().len(),
    {
        proof {
            use_type_invariant(self);
            let ks = keys_of(self.items@);
            assert(ks.no_duplicates());
            ks.unique_seq_to_set();
            assert(ks.to_set() =~= self@.dom()) by {
                assert forall|k: Seq<char>| ks.to_set().contains(k) implies self@.dom().contains(k) by {
                    let i = choose|i: int| 0 <= i < ks.len() && ks[i] == k;
                    assert(key_at(self.items@, k, i));
                }
                assert forall|k: Seq<char>| self@.dom().contains(k) implies ks.to_set().contains(k) by {
                    let i = choose|i: int| key_at(self.items@, k, i);
                    assert(ks[i] == k);
                }
            }
        }
        self.items.len()
    }

    /// The value at `key`, if any.
    pub fn get(&self, key: &str) -> (r: Option<&V>)
        ensures
            r is Some <==> self@.contains_key(key@),
            r matches Some(v) ==> *v == self@[key@],
    {
        proof { use_type_invariant(self); }
        match self.find(key) {
            Some(i) => {
                proof { lemma_assoc_lookup(self.items@, i as int); }
                Some(&self.items[i].1)
            },
            None => None,
        }
    }

    /// Whether there is a value at `key`.
    pub fn contains(&self, key: &str) -> (r: bool)
        ensures
            r == self@.contains_key(key@),
    {
        self.find(key).is_some()
    }

    /// The entry at index `i` (entries keep the order in which their keys were first inserted).
    pub fn entry(&self, i: usize) -> (r: &(String, V))
        requires
            i < self.entries().len(),
        ensures
            *r == self.entries()[i as int],
    {
        &self.items[i]
    }

    /// Sets the value at `key`, replacing any value there.
    pub fn insert(&mut self, key: String, value: V)
        ensures
            final(self)@ == old(self)@.insert(key@, value),
    {
        proof { use_type_invariant(&*self); }
        let ghost old_items = self.items@;
        let found = self.find(key.as_str());
        let mut items: Vec<(String, V)> = Vec::new();
        std::mem::swap(&mut items, &mut self.items);
        match found {
            Some(i) => {
                let ghost k = key@;
                items.set(i, (key, value));
                proof {
                    let s = items@;
                    assert(s == old_items.update(i as int, s[i as int]));
                    assert(distinct_keys(s)) by {
                        assert forall|a: int, b: int| 0 <= a < s.len() && 0 <= b < s.len() && #[trigger] s[a].0@ == #[trigger] s[b].0@ implies a == b by {
                            if a != i && b != i {
                                assert(old_items[a].0@ == old_items[b].0@);
                            } else if a == i && b != i {
                                assert(old_items[b].0@ == old_items[i as int].0@);
                            } else if b == i && a != i {
                                assert(old_items[a].0@ == old_items[i as int].0@);
                            }
                        }
                    }
                    assert(assoc_map(s) =~= assoc_map(old_items).insert(k, value)) by {
                        assert forall|x: Seq<char>| #[trigger] assoc_map(s).contains_key(x) <==> assoc_map(old_items).insert(k, value).contains_key(x) by {
                            if exists|j: int| key_at(s, x, j) {
                                let j = choose|j: int| key_at(s, x, j);
                                if j != i {
                                    assert(key_at(old_items, x, j));
                                }
                            }
                            if exists|j: int| key_at(old_items, x, j) {
                                let j = choose|j: int| key_at(old_items, x, j);
                                if j != i {
                                    assert(key_at(s, x, j));
                                } else {
                                    assert(key_at(s, x, i as int));
                                }
                            }
                            if x == k {
                                assert(key_at(s, x, i as int));
                            }
                        }
                        assert forall|x: Seq<char>| #[trigger] assoc_map(s).contains_key(x) implies assoc_map(s)[x] == assoc_map(old_items).insert(k, value)[x] by {
                            let j = choose|j: int| key_at(s, x, j);
                            lemma_assoc_lookup(s, j);
                            if j != i {
                                assert(key_at(old_items, x, j));
                                lemma_assoc_lookup(old_items, j);
                            }
                        }
                    }
                }
            },
            None => {
                let ghost k = key@;
                items.push((key, value));
                proof {
                    let s = items@;
                    let n: int = old_items.len() as int;
                    assert(distinct_keys(s)) by {
                        assert forall|a: int, b: int| 0 <= a < s.len() && 0 <= b < s.len() && #[trigger] s[a].0@ == #[trigger] s[b].0@ implies a == b by {
                            if a < n && b < n {
                                assert(old_items[a].0@ == old_items[b].0@);
                            } else if a < n {
                                assert(key_at(old_items, k, a));
                            } else if b < n {
                                assert(key_at(old_items, k, b));
                            }
                        }
                    }
                    assert(assoc_map(s) =~= assoc_map(old_items).insert(k, value)) by {
                        assert forall|x: Seq<char>| #[trigger] assoc_map(s).contains_key(x) <==> assoc_map(old_items).insert(k, value).contains_key(x) by {
                            if exists|j: int| key_at(s, x, j) {
                                let j = choose|j: int| key_at(s, x, j);
                                if j < n {
                                    assert(key_at(old_items, x, j));
                                }
                            }
                            if exists|j: int| key_at(old_items, x, j) {
                                let j = choose|j: int| key_at(old_items, x, j);
                                assert(key_at(s, x, j));
                            }
                            if x == k {
                                assert(key_at(s, x, n));
                            }
                        }
                        assert forall|x: Seq<char>| #[trigger] assoc_map(s).contains_key(x) implies assoc_map(s)[x] == assoc_map(old_items).insert(k, value)[x] by {
                            let j = choose|j: int| key_at(s, x, j);
                            lemma_assoc_lookup(s, j);
                            if j < n {
                                assert(key_at(old_items, x, j));
                                lemma_assoc_lookup(old_items, j);
                            }
                        }
                    }
                }
            },
        }
        self.items = items;
    }

    /// Removes the value at `key`, giving it back if there was one.
    pub fn remove(&mut self, key: &str) -> (r: Option<V>)
        ensures
            final(self)@ == old(self)@.remove(key@),
            r is Some <==> old(self)@.contains_key(key@),
            r matches Some(v) ==> v == old(self)@[key@],
    {
        proof { use_type_invariant(&*self); }
        let ghost old_items = self.items@;
        match self.find(key) {
            Some(i) => {
                let mut items: Vec<(String, V)> = Vec::new();
                std::mem::swap(&mut items, &mut self.items);
                let (_, v) = items.remove(i);
                proof {
                    lemma_assoc_lookup(old_items, i as int);
                    let s = items@;
                    let k = key@;
                    assert(s =~= old_items.remove(i as int));
                    assert forall|j: int| 0 <= j < s.len() implies #[trigger] s[j] == old_items[if j < i { j } else { j + 1 }] by {}
                    assert(distinct_keys(s)) by {
                        assert forall|a: int, b: int| 0 <= a < s.len() && 0 <= b < s.len() && #[trigger] s[a].0@ == #[trigger] s[b].0@ implies a == b by {
                            let oa = if a < i { a } else { a + 1 };
                            let ob = if b < i { b } else { b + 1 };
                            assert(s[a] == old_items[oa]);
                            assert(s[b] == old_items[ob]);
                            assert(old_items[oa].0@ == old_items[ob].0@);
                        }
                    }
                    assert(assoc_map(s) =~= assoc_map(old_items).remove(k)) by {
                        assert forall|x: Seq<char>| #[trigger] assoc_map(s).contains_key(x) <==> assoc_map(old_items).remove(k).contains_key(x) by {
                            if exists|j: int| key_at(s, x, j) {
                                let j = choose|j: int| key_at(s, x, j);
                                let oj = if j < i { j } else { j + 1 };
                                assert(s[j] == old_items[oj]);
                                assert(key_at(old_items, x, oj));
                                if x == k {
                                    assert(key_at(old_items, k, i as int));
                                }
                            }
                            if exists|j: int| key_at(old_items, x, j) && x != k {
                                let j = choose|j: int| key_at(old_items, x, j) && x != k;
                                assert(j != i);
                                let sj = if j < i { j } else { j - 1 };
                                assert(s[sj] == old_items[j]);
                                assert(key_at(s, x, sj));
                            }
                        }
                        assert forall|x: Seq<char>| #[trigger] assoc_map(s).contains_key(x) implies assoc_map(s)[x] == assoc_map(old_items).remove(k)[x] by {
                            let j = choose|j: int| key_at(s, x, j);
                            lemma_assoc_lookup(s, j);
                            let oj = if j < i { j } else { j + 1 };
                            assert(s[j] == old_items[oj]);
                            assert(key_at(old_items, x, oj));
                            lemma_assoc_lookup(old_items, oj);
                        }
                    }
                }
                self.items = items;
                Some(v)
            },
            None => {
                assert(self@ =~= old(self)@.remove(key@));
                None
            },
        }
    }
}

impl<V: Clone> Clone for Store<V> {
    /// A copy with the same keys in the same order; each value is a clone.
    fn clone(&self) -> (r: Self)
        ensures
            keys_of(r.entries()) == keys_of(self.entries()),
    {
        proof { use_type_invariant(self); }
        let mut items: Vec<(String, V)> = Vec::new();
        let mut i: usize = 0;
        while i < self.items.len()
            invariant
                i <= self.items@.len(),
                items@.len() == i,
                distinct_keys(self.items@),
                forall|j: int| 0 <= j < i ==> #[trigger] items@[j].0@ == self.items@[j].0@,
            decreases self.items@.len() - i,
        {
            let k = self.items[i].0.clone();
            let v = self.items[i].1.clone();
            items.push((k, v));
            i = i + 1;
        }
        assert(distinct_keys(items@)) by {
            assert forall|a: int, b: int| 0 <= a < items@.len() && 0 <= b < items@.len() && #[trigger] items@[a].0@ == #[trigger] items@[b].0@ implies a == b by {
                assert(self.items@[a].0@ == self.items@[b].0@);
            }
        }
        assert(keys_of(items@) =~= keys_of(self.items@));
        Store { items }
    }
}

impl Store<String> {
    /// A copy of the store, with the same entries.
    pub fn duplicate(&self) -> (r: Self)
        ensures
            r@ == self@,
            r.entries() == self.entries(),
    {
        proof { use_type_invariant(self); }
        let mut items: Vec<(String, String)> = Vec::new();
        let mut i: usize = 0;
        while i < self.items.len()
            invariant
                i <= self.items@.len(),
                items@ == self.items@.take(i as int),
            decreases self.items@.len() - i,
        {
            let k = self.items[i].0.clone();
            let v = self.items[i].1.clone();
            items.push((k, v));
            proof {
                assert(self.items@.take(i + 1) =~= self.items@.take(i as int).push(self.items@[i as int]));
            }
            i = i + 1;
        }
        proof {
            assert(self.items@.take(self.items@.len() as int) =~= self.items@);
        }
        Store { items }
    }
}

} // verus!
