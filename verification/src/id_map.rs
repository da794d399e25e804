//! A map keyed by raw snowflakes, kept as a list sorted by key: lookups,
//! upserts and removals, and iteration in increasing key order.
use vstd::prelude::*;

verus! {

/// Keys strictly increase along the list, so each key occurs once.
pub open spec fn strictly_sorted<V>(s: Seq<(u64, V)>) -> bool {
    forall|i: int, j: int| 0 <= i < j < s.len() ==> (#[trigger] s[i]).0 < (#[trigger] s[j]).0
}

pub open spec fn has_key<V>(s: Seq<(u64, V)>, k: u64) -> bool {
    exists|i: int| 0 <= i < s.len() && (#[trigger] s[i]).0 == k
}

pub open spec fn index_of_key<V>(s: Seq<(u64, V)>, k: u64) -> int {
    choose|i: int| 0 <= i < s.len() && (#[trigger] s[i]).0 == k
}

/// The map that a sorted entry list stands for.
pub open spec fn entries_map<V>(s: Seq<(u64, V)>) -> Map<u64, V> {
    Map::new(|k: u64| has_key(s, k), |k: u64| s[index_of_key(s, k)].1)
}

/// In a sorted list, the entry holding a key is the one `index_of_key` picks.
pub proof fn lemma_index_of_key<V>(s: Seq<(u64, V)>, i: int)
    requires
        strictly_sorted(s),
        0 <= i < s.len(),
    ensures
        has_key(s, s[i].0),
        index_of_key(s, s[i].0) == i,
        entries_map(s).dom().contains(s[i].0),
        entries_map(s)[s[i].0] == s[i].1,
{
    let k = s[i].0;
    assert(has_key(s, k));
    let j = index_of_key(s, k);
    if j < i {
        assert(s[j].0 < s[i].0);
    } else if j > i {
        assert(s[i].0 < s[j].0);
    }
}

/// `keys` lists the keys of `m` in increasing order, each exactly once.
pub open spec fn lists_keys_once<V>(m: Map<u64, V>, keys: Seq<u64>) -> bool {
    &&& keys.no_duplicates()
    &&& forall|k: u64| m.dom().contains(k) <==> keys.contains(k)
    &&& forall|i: int, j: int| 0 <= i < j < keys.len() ==> keys[i] < keys[j]
}

/// A map from snowflakes to values, iterated in increasing key order.
pub struct IdMap<V> {
    entries: Vec<(u64, V)>,
}

impl<V> View for IdMap<V> {
    type V = Map<u64, V>;

    closed spec fn view(&self) -> Map<u64, V> {
        entries_map(self.entries@)
    }
}

impl<V> IdMap<V> {
    #[verifier::type_invariant]
    spec fn sorted(self) -> bool {
        strictly_sorted(self.entries@)
    }

    /// The keys in increasing order.
    pub closed spec fn key_seq(&self) -> Seq<u64> {
        self.entries@.map_values(|e: (u64, V)| e.0)
    }

    pub fn new() -> (r: Self)
        ensures
            r@ == Map::<u64, V>::empty(),
            r.key_seq() == Seq::<u64>::empty(),
    {
        let r = IdMap { entries: Vec::new() };
        proof {
            assert(r@ =~= Map::<u64, V>::empty());
            assert(r.key_seq() =~= Seq::<u64>::empty());
        }
        r
    }

    pub fn len(&self) -> (r: usize)
        ensures
            r == self@.dom().len(),
            r == self.key_seq().len(),
            lists_keys_once(self@, self.key_seq()),
    {
        proof {
            use_type_invariant(self);
            self.lemma_keys_match_dom();
            self.lemma_key_seq_increasing();
        }
        self.entries.len()
    }

    pub fn is_empty(&self) -> (r: bool)
        ensures
            r == (self@.dom().len() == 0),
            r == (self@ == Map::<u64, V>::empty()),
    {
        proof {
            use_type_invariant(self);
            self.lemma_keys_match_dom();
            if self.entries@.len() == 0 {
                assert(self@ =~= Map::<u64, V>::empty());
            } else {
                lemma_index_of_key(self.entries@, 0);
                assert(self@.dom().contains(self.entries@[0].0));
            }
        }
        self.entries.len() == 0
    }

    /// The keys are listed in increasing order.
    proof fn lemma_key_seq_increasing(&self)
        requires
            strictly_sorted(self.entries@),
        ensures
            forall|i: int, j: int| 0 <= i < j < self.key_seq().len() ==> self.key_seq()[i] < self.key_seq()[j],
    {
        assert forall|i: int, j: int| 0 <= i < j < self.key_seq().len() implies self.key_seq()[i] < self.key_seq()[j] by {
            assert(self.entries@[i].0 < self.entries@[j].0);
        }
    }

    /// The domain is exactly the keys listed, each once.
    proof fn lemma_keys_match_dom(&self)
        requires
            strictly_sorted(self.entries@),
        ensures
            self@.dom().finite(),
            self@.dom().len() == self.entries@.len(),
            self.key_seq().len() == self.entries@.len(),
            forall|k: u64| self@.dom().contains(k) <==> self.key_seq().contains(k),
            self.key_seq().no_duplicates(),
            self.key_seq().to_set() == self@.dom(),
    {
        let ks = self.key_seq();
        assert forall|k: u64| self@.dom().contains(k) <==> ks.contains(k) by {
            if self@.dom().contains(k) {
                let i = index_of_key(self.entries@, k);
                assert(ks[i] == k);
            }
            if ks.contains(k) {
                let i = choose|i: int| 0 <= i < ks.len() && ks[i] == k;
                assert(self.entries@[i].0 == k);
            }
        }
        assert forall|i: int, j: int| 0 <= i < ks.len() && 0 <= j < ks.len() && i != j implies ks[i] != ks[j] by {
            if i < j {
                assert(self.entries@[i].0 < self.entries@[j].0);
            } else {
                assert(self.entries@[j].0 < self.entries@[i].0);
            }
        }
        assert(ks.to_set() =~= self@.dom());
        ks.unique_seq_to_set();
    }

    /// The index of the first entry whose key is not below `k`, and whether
    /// that entry holds `k`.
    fn position(&self, k: u64) -> (r: (bool, usize))
        requires
            strictly_sorted(self.entries@),
        ensures
            r.1 <= self.entries@.len(),
            forall|i: int| 0 <= i < r.1 ==> (#[trigger] self.entries@[i]).0 < k,
            r.0 ==> r.1 < self.entries@.len() && self.entries@[r.1 as int].0 == k,
            !r.0 ==> forall|i: int| r.1 <= i < self.entries@.len() ==> (#[trigger] self.entries@[i]).0 > k,
    {
        let n = self.entries.len();
        let mut i: usize = 0;
        while i < n
            invariant
                n == self.entries@.len(),
                i <= n,
                strictly_sorted(self.entries@),
                forall|j: int| 0 <= j < i ==> (#[trigger] self.entries@[j]).0 < k,
            decreases n - i,
        {
            let key = self.entries[i].0;
            if key == k {
                return (true, i);
            }
            if key > k {
                proof {
                    assert forall|j: int| i <= j < n implies (#[trigger] self.entries@[j]).0 > k by {
                        if j > i {
                            assert(self.entries@[i as int].0 < self.entries@[j].0);
                        }
                    }
                }
                return (false, i);
            }
            i = i + 1;
        }
        (false, n)
    }

    pub fn contains_key(&self, k: u64) -> (r: bool)
        ensures
            r == self@.dom().contains(k),
    {
        proof {
            use_type_invariant(self);
        }
        let (found, p) = self.position(k);
        proof {
            if found {
                lemma_index_of_key(self.entries@, p as int);
            } else if has_key(self.entries@, k) {
                let j = index_of_key(self.entries@, k);
                if j < p {
                } else {
                }
            }
        }
        found
    }

    pub fn get(&self, k: u64) -> (r: Option<&V>)
        ensures
            match r {
                Some(v) => self@.dom().contains(k) && *v == self@[k],
                None => !self@.dom().contains(k),
            },
    {
        proof {
            use_type_invariant(self);
        }
        let (found, p) = self.position(k);
        if found {
            proof {
                lemma_index_of_key(self.entries@, p as int);
            }
            Some(&self.entries[p].1)
        } else {
            proof {
                if has_key(self.entries@, k) {
                    let j = index_of_key(self.entries@, k);
                    if j < p {
                    } else {
                    }
                }
            }
            None
        }
    }

    /// Sets the value of `k`, replacing any value it had.
    pub fn insert(&mut self, k: u64, v: V)
        ensures
            final(self)@ == old(self)@.insert(k, v),
    {
        proof {
            use_type_invariant(&*self);
        }
        let (found, p) = self.position(k);
        let mut entries: Vec<(u64, V)> = Vec::new();
        std::mem::swap(&mut entries, &mut self.entries);
        let ghost before = entries@;
        if found {
            entries.set(p, (k, v));
        } else {
            entries.insert(p, (k, v));
        }
        let ghost after = entries@;
        proof {
            if found {
                assert(after == before.update(p as int, (k, v)));
            } else {
                assert(after == before.insert(p as int, (k, v)));
            }
            assert forall|i: int, j: int| 0 <= i < j < after.len() implies (#[trigger] after[i]).0 < (#[trigger] after[j]).0 by {
                if found {
                    if i == p {
                        assert(before[i].0 == k);
                    }
                    if j == p {
                        assert(before[j].0 == k);
                    }
                    assert(before[i].0 < before[j].0);
                } else {
                    if j < p {
                        assert(after[i] == before[i] && after[j] == before[j]);
                    } else if j == p {
                        assert(after[i] == before[i]);
                    } else if i == p {
                        assert(after[j] == before[j - 1]);
                    } else if i < p {
                        assert(after[i] == before[i] && after[j] == before[j - 1]);
                    } else {
                        assert(after[i] == before[i - 1] && after[j] == before[j - 1]);
                        assert(before[i - 1].0 < before[j - 1].0);
                    }
                }
            }
            let m = entries_map(before).insert(k, v);
            assert forall|key: u64| #[trigger] entries_map(after).dom().contains(key) <==> m.dom().contains(key) by {
                if entries_map(after).dom().contains(key) {
                    let i = index_of_key(after, key);
                    if key != k {
                        if found {
                            assert(before[i].0 == key);
                        } else if i < p {
                            assert(before[i].0 == key);
                        } else {
                            assert(i != p);
                            assert(before[i - 1].0 == key);
                        }
                    }
                }
                if m.dom().contains(key) {
                    if key == k {
                        assert(after[p as int].0 == k);
                    } else {
                        let i = index_of_key(before, key);
                        if found {
                            assert(after[i].0 == key);
                        } else if i < p {
                            assert(after[i].0 == key);
                        } else {
                            assert(after[i + 1].0 == key);
                        }
                    }
                }
            }
            assert forall|key: u64| #[trigger] entries_map(after).dom().contains(key) implies entries_map(after)[key] == m[key] by {
                if key == k {
                    lemma_index_of_key(after, p as int);
                } else {
                    let i = index_of_key(after, key);
                    lemma_index_of_key(after, i);
                    if found || i < p {
                        assert(before[i] == after[i]);
                        lemma_index_of_key(before, i);
                    } else {
                        assert(before[i - 1] == after[i]);
                        lemma_index_of_key(before, i - 1);
                    }
                }
            }
            assert(entries_map(after) =~= m);
        }
        self.entries = entries;
    }

    /// Removes `k`, handing back the value it had.
    pub fn remove(&mut self, k: u64) -> (r: Option<V>)
        ensures
            final(self)@ == old(self)@.remove(k),
            match r {
                Some(v) => old(self)@.dom().contains(k) && v == old(self)@[k],
                None => !old(self)@.dom().contains(k),
            },
    {
        proof {
            use_type_invariant(&*self);
        }
        let (found, p) = self.position(k);
        if !found {
            proof {
                if has_key(self.entries@, k) {
                    let j = index_of_key(self.entries@, k);
                    if j < p {
                    } else {
                    }
                }
                assert(self@.remove(k) =~= self@);
            }
            return None;
        }
        let mut entries: Vec<(u64, V)> = Vec::new();
        std::mem::swap(&mut entries, &mut self.entries);
        let ghost before = entries@;
        proof {
            lemma_index_of_key(before, p as int);
        }
        let removed = entries.remove(p);
        let ghost after = entries@;
        proof {
            assert(after == before.remove(p as int));
            assert forall|i: int, j: int| 0 <= i < j < after.len() implies (#[trigger] after[i]).0 < (#[trigger] after[j]).0 by {
                if j < p {
                    assert(after[i] == before[i] && after[j] == before[j]);
                } else if i < p {
                    assert(after[i] == before[i] && after[j] == before[j + 1]);
                } else {
                    assert(after[i] == before[i + 1] && after[j] == before[j + 1]);
                    assert(before[i + 1].0 < before[j + 1].0);
                }
            }
            let m = entries_map(before).remove(k);
            assert forall|key: u64| #[trigger] entries_map(after).dom().contains(key) <==> m.dom().contains(key) by {
                if entries_map(after).dom().contains(key) {
                    let i = index_of_key(after, key);
                    if i < p {
                        assert(before[i].0 == key);
                        assert(before[i].0 < before[p as int].0);
                    } else {
                        assert(before[i + 1].0 == key);
                        assert(before[p as int].0 < before[i + 1].0);
                    }
                }
                if m.dom().contains(key) {
                    let i = index_of_key(before, key);
                    assert(i != p);
                    if i < p {
                        assert(after[i].0 == key);
                    } else {
                        assert(after[i - 1].0 == key);
                    }
                }
            }
            assert forall|key: u64| #[trigger] entries_map(after).dom().contains(key) implies entries_map(after)[key] == m[key] by {
                let i = index_of_key(after, key);
                lemma_index_of_key(after, i);
                if i < p {
                    assert(before[i] == after[i]);
                    lemma_index_of_key(before, i);
                } else {
                    assert(before[i + 1] == after[i]);
                    lemma_index_of_key(before, i + 1);
                }
            }
            assert(entries_map(after) =~= m);
        }
        self.entries = entries;
        Some(removed.1)
    }

    /// The keys in increasing order.
    pub fn keys(&self) -> (r: Vec<u64>)
        ensures
            r@ == self.key_seq(),
            lists_keys_once(self@, self.key_seq()),
            forall|i: int, j: int| 0 <= i < j < r@.len() ==> r@[i] < r@[j],
            forall|k: u64| self@.dom().contains(k) <==> r@.contains(k),
            r@.len() == self@.dom().len(),
    {
        proof {
            use_type_invariant(self);
            self.lemma_keys_match_dom();
        }
        let mut out: Vec<u64> = Vec::new();
        let n = self.entries.len();
        let mut i: usize = 0;
        while i < n
            invariant
                n == self.entries@.len(),
                i <= n,
                out@ == self.key_seq().subrange(0, i as int),
            decreases n - i,
        {
            out.push(self.entries[i].0);
            proof {
                assert(out@ =~= self.key_seq().subrange(0, i + 1));
            }
            i = i + 1;
        }
        proof {
            assert(self.key_seq().subrange(0, n as int) =~= self.key_seq());
            assert forall|i: int, j: int| 0 <= i < j < out@.len() implies out@[i] < out@[j] by {
                assert(self.entries@[i].0 < self.entries@[j].0);
            }
        }
        out
    }

    /// The values in increasing key order.
    pub fn values(&self) -> (r: Vec<&V>)
        ensures
            r@.len() == self.key_seq().len(),
            forall|i: int| 0 <= i < r@.len() ==> *(#[trigger] r@[i]) == self@[self.key_seq()[i]],
            lists_keys_once(self@, self.key_seq()),
    {
        proof {
            use_type_invariant(self);
            self.lemma_keys_match_dom();
            self.lemma_key_seq_increasing();
        }
        let mut out: Vec<&V> = Vec::new();
        let n = self.entries.len();
        let mut i: usize = 0;
        while i < n
            invariant
                n == self.entries@.len(),
                i <= n,
                strictly_sorted(self.entries@),
                out@.len() == i,
                forall|j: int| 0 <= j < i ==> *(#[trigger] out@[j]) == self@[self.key_seq()[j]],
            decreases n - i,
        {
            proof {
                lemma_index_of_key(self.entries@, i as int);
            }
            out.push(&self.entries[i].1);
            i = i + 1;
        }
        out
    }

    /// The key and value at a position in key order.
    pub fn entry_at(&self, i: usize) -> (r: (u64, &V))
        requires
            i < self.key_seq().len(),
        ensures
            r.0 == self.key_seq()[i as int],
            self@.dom().contains(r.0),
            *r.1 == self@[r.0],
            lists_keys_once(self@, self.key_seq()),
    {
        proof {
            use_type_invariant(self);
            self.lemma_keys_match_dom();
            self.lemma_key_seq_increasing();
            lemma_index_of_key(self.entries@, i as int);
        }
        (self.entries[i].0, &self.entries[i].1)
    }

    /// Every key listed is in the map (that every key of the map is listed,
    /// once, is in the contracts of `len`, `keys`, `values` and `entry_at`).
    pub proof fn lemma_key_seq_in_dom(&self, i: int)
        requires
            0 <= i < self.key_seq().len(),
        ensures
            self@.dom().contains(self.key_seq()[i]),
    {
        assert(self.entries@[i].0 == self.key_seq()[i]);
        assert(has_key(self.entries@, self.key_seq()[i]));
    }
}

} // verus!
