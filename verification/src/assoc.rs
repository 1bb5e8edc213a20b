//! A finite map kept as a vector of key/value pairs with distinct keys; the
//! contract keeps each of its keyed storage areas in one.

use vstd::prelude::*;

use crate::address::KeyEq;

verus! {

/// The map that a list of key/value pairs describes; a later pair overrides
/// an earlier one with the same key.
pub open spec fn list_to_map<K, V>(s: Seq<(K, V)>) -> Map<K, V>
    decreases s.len(),
{
    if s.len() == 0 {
        Map::empty()
    } else {
        list_to_map(s.drop_last()).insert(s.last().0, s.last().1)
    }
}

pub struct AssocList<K, V> {
    entries: Vec<(K, V)>,
}

pub open spec fn seq_keys_unique<K, V>(s: Seq<(K, V)>) -> bool {
    forall|i: int, j: int|
        0 <= i < s.len() && 0 <= j < s.len() && i != j ==> #[trigger] s[i].0 != #[trigger] s[j].0
}

pub open spec fn seq_has_key_at<K, V>(s: Seq<(K, V)>, k: K, i: int) -> bool {
    0 <= i < s.len() && s[i].0 == k
}

/// The map of a list of pairs with distinct keys.
pub open spec fn seq_view<K, V>(s: Seq<(K, V)>) -> Map<K, V> {
    Map::new(
        |k: K| exists|i: int| #[trigger] seq_has_key_at(s, k, i),
        |k: K| s[choose|i: int| #[trigger] seq_has_key_at(s, k, i)].1,
    )
}

proof fn lemma_seq_view_at<K, V>(s: Seq<(K, V)>, i: int)
    requires
        seq_keys_unique(s),
        0 <= i < s.len(),
    ensures
        seq_view(s).contains_key(s[i].0),
        seq_view(s)[s[i].0] == s[i].1,
{
    let k = s[i].0;
    assert(seq_has_key_at(s, k, i));
    let j = choose|j: int| #[trigger] seq_has_key_at(s, k, j);
    assert(seq_has_key_at(s, k, j));
    assert(i == j);
}

/// For distinct keys, the list's map is the one `list_to_map` builds.
proof fn lemma_seq_view_is_list_map<K, V>(s: Seq<(K, V)>)
    requires
        seq_keys_unique(s),
    ensures
        seq_view(s) == list_to_map(s),
    decreases s.len(),
{
    let n = s.len();
    if n == 0 {
        assert(seq_view(s) =~= Map::<K, V>::empty());
    } else {
        let shorter = s.drop_last();
        assert(seq_keys_unique(shorter));
        lemma_seq_view_is_list_map(shorter);
        let last = s.last();
        assert forall|k: K| #[trigger] seq_view(s).contains_key(k) == seq_view(shorter).insert(
            last.0,
            last.1,
        ).contains_key(k) by {
            if k == last.0 {
                assert(seq_has_key_at(s, k, n - 1));
            } else {
                if seq_view(s).contains_key(k) {
                    let j = choose|j: int| #[trigger] seq_has_key_at(s, k, j);
                    assert(seq_has_key_at(shorter, k, j));
                }
                if seq_view(shorter).contains_key(k) {
                    let j = choose|j: int| #[trigger] seq_has_key_at(shorter, k, j);
                    assert(seq_has_key_at(s, k, j));
                }
            }
        }
        assert forall|k: K| #[trigger] seq_view(s).contains_key(k) implies seq_view(s)[k]
            == seq_view(shorter).insert(last.0, last.1)[k] by {
            let j = choose|j: int| #[trigger] seq_has_key_at(s, k, j);
            lemma_seq_view_at(s, j);
            if j < n - 1 {
                lemma_seq_view_at(shorter, j);
            }
        }
        assert(seq_view(s) =~= seq_view(shorter).insert(last.0, last.1));
    }
}

impl<K, V> AssocList<K, V> {
    pub closed spec fn keys_unique(self) -> bool {
        seq_keys_unique(self.entries@)
    }

    #[verifier::type_invariant]
    closed spec fn inv(self) -> bool {
        self.keys_unique()
    }

}

impl<K, V> View for AssocList<K, V> {
    type V = Map<K, V>;

    closed spec fn view(&self) -> Map<K, V> {
        seq_view(self.entries@)
    }
}

impl<K: KeyEq + Copy, V: Copy> AssocList<K, V> {
    proof fn lemma_view_at(self, i: int)
        requires
            self.keys_unique(),
            0 <= i < self.entries@.len(),
        ensures
            self@.contains_key(self.entries@[i].0),
            self@[self.entries@[i].0] == self.entries@[i].1,
    {
        lemma_seq_view_at(self.entries@, i);
    }

    pub fn new() -> (r: Self)
        ensures
            r@ == Map::<K, V>::empty(),
    {
        let r = AssocList { entries: Vec::new() };
        assert(r@ =~= Map::<K, V>::empty());
        r
    }

    /// The entries as a list of pairs with distinct keys.
    pub fn to_vec(&self) -> (r: Vec<(K, V)>)
        ensures
            list_to_map(r@) == self@,
            seq_keys_unique(r@),
    {
        proof {
            use_type_invariant(self);
        }
        let mut r: Vec<(K, V)> = Vec::new();
        let mut i: usize = 0;
        while i < self.entries.len()
            invariant
                i <= self.entries@.len(),
                r@ == self.entries@.take(i as int),
            decreases self.entries@.len() - i,
        {
            r.push(self.entries[i]);
            i = i + 1;
            assert(r@ =~= self.entries@.take(i as int));
        }
        proof {
            assert(r@ =~= self.entries@);
            lemma_seq_view_is_list_map(self.entries@);
        }
        r
    }

    /// The map that `pairs` describes; a later pair overrides an earlier one
    /// with the same key.
    pub fn from_vec(pairs: &Vec<(K, V)>) -> (r: Self)
        ensures
            r@ == list_to_map(pairs@),
    {
        let mut r = Self::new();
        let mut i: usize = 0;
        while i < pairs.len()
            invariant
                i <= pairs@.len(),
                r@ == list_to_map(pairs@.take(i as int)),
            decreases pairs@.len() - i,
        {
            let (k, v) = pairs[i];
            r.insert(k, v);
            proof {
                assert(pairs@.take(i + 1).drop_last() =~= pairs@.take(i as int));
            }
            i = i + 1;
        }
        proof {
            assert(pairs@.take(pairs@.len() as int) =~= pairs@);
        }
        r
    }

    fn find(&self, k: &K) -> (r: Option<usize>)
        ensures
            match r {
                Some(i) => i < self.entries@.len() && self.entries@[i as int].0 == *k,
                None => !self@.contains_key(*k),
            },
    {
        let mut i: usize = 0;
        while i < self.entries.len()
            invariant
                i <= self.entries@.len(),
                forall|j: int| 0 <= j < i ==> self.entries@[j].0 != *k,
            decreases self.entries@.len() - i,
        {
            if self.entries[i].0.key_eq(k) {
                return Some(i);
            }
            i = i + 1;
        }
        assert forall|j: int| !seq_has_key_at(self.entries@, *k, j) by {}
        None
    }

    /// The value stored under `k`, if any.
    pub fn get(&self, k: &K) -> (r: Option<V>)
        ensures
            r == (if self@.contains_key(*k) {
                Some(self@[*k])
            } else {
                None::<V>
            }),
    {
        proof {
            use_type_invariant(self);
        }
        match self.find(k) {
            Some(i) => {
                proof {
                    self.lemma_view_at(i as int);
                }
                Some(self.entries[i].1)
            },
            None => None,
        }
    }

    pub fn contains_key(&self, k: &K) -> (r: bool)
        ensures
            r == self@.contains_key(*k),
    {
        proof {
            use_type_invariant(self);
        }
        match self.find(k) {
            Some(i) => {
                proof {
                    self.lemma_view_at(i as int);
                }
                true
            },
            None => false,
        }
    }

    /// Stores `v` under `k`, replacing any earlier value.
    pub fn insert(&mut self, k: K, v: V)
        ensures
            final(self)@ == old(self)@.insert(k, v),
    {
        proof {
            use_type_invariant(&*self);
        }
        let ghost old_self = *self;
        match self.find(&k) {
            Some(i) => {
                let mut entries: Vec<(K, V)> = Vec::new();
                std::mem::swap(&mut entries, &mut self.entries);
                entries.set(i, (k, v));
                self.entries = entries;
                proof {
                    assert(self.keys_unique());
                    assert forall|kk: K| #[trigger] self@.contains_key(kk) == old_self@.insert(
                        k,
                        v,
                    ).contains_key(kk) by {
                        if kk == k {
                            self.lemma_view_at(i as int);
                        } else {
                            if old_self@.contains_key(kk) {
                                let j = choose|j: int| #[trigger] seq_has_key_at(old_self.entries@, kk, j);
                                assert(seq_has_key_at(self.entries@, kk, j));
                            }
                            if self@.contains_key(kk) {
                                let j = choose|j: int| #[trigger] seq_has_key_at(self.entries@, kk, j);
                                assert(seq_has_key_at(old_self.entries@, kk, j));
                            }
                        }
                    }
                    assert forall|kk: K| #[trigger] self@.contains_key(kk) implies self@[kk]
                        == old_self@.insert(k, v)[kk] by {
                        if kk == k {
                            self.lemma_view_at(i as int);
                        } else {
                            let j = choose|j: int| #[trigger] seq_has_key_at(self.entries@, kk, j);
                            self.lemma_view_at(j);
                            old_self.lemma_view_at(j);
                        }
                    }
                    assert(self@ =~= old_self@.insert(k, v));
                }
            },
            None => {
                let mut entries: Vec<(K, V)> = Vec::new();
                std::mem::swap(&mut entries, &mut self.entries);
                entries.push((k, v));
                proof {
                    let n = old_self.entries@.len() as int;
                    assert forall|i: int, j: int|
                        0 <= i < entries@.len() && 0 <= j < entries@.len() && i != j implies #[trigger] entries@[i].0
                        != #[trigger] entries@[j].0 by {
                        if i == n && j < n {
                            old_self.lemma_view_at(j);
                        } else if j == n && i < n {
                            old_self.lemma_view_at(i);
                        } else {
                            assert(old_self.entries@[i].0 != old_self.entries@[j].0);
                        }
                    }
                }
                self.entries = entries;
                proof {
                    let n = old_self.entries@.len() as int;
                    assert forall|kk: K| #[trigger] self@.contains_key(kk) == old_self@.insert(
                        k,
                        v,
                    ).contains_key(kk) by {
                        if kk == k {
                            assert(seq_has_key_at(self.entries@, k, n));
                        } else {
                            if old_self@.contains_key(kk) {
                                let j = choose|j: int| #[trigger] seq_has_key_at(old_self.entries@, kk, j);
                                assert(seq_has_key_at(self.entries@, kk, j));
                            }
                            if self@.contains_key(kk) {
                                let j = choose|j: int| #[trigger] seq_has_key_at(self.entries@, kk, j);
                                assert(seq_has_key_at(old_self.entries@, kk, j));
                            }
                        }
                    }
                    assert forall|kk: K| #[trigger] self@.contains_key(kk) implies self@[kk]
                        == old_self@.insert(k, v)[kk] by {
                        if kk == k {
                            self.lemma_view_at(n);
                        } else {
                            let j = choose|j: int| #[trigger] seq_has_key_at(self.entries@, kk, j);
                            self.lemma_view_at(j);
                            old_self.lemma_view_at(j);
                        }
                    }
                    assert(self@ =~= old_self@.insert(k, v));
                }
            },
        }
    }

    /// Removes the entry under `k` and returns its value, if there was one.
    pub fn remove(&mut self, k: &K) -> (r: Option<V>)
        ensures
            r == (if old(self)@.contains_key(*k) {
                Some(old(self)@[*k])
            } else {
                None::<V>
            }),
            final(self)@ == old(self)@.remove(*k),
    {
        proof {
            use_type_invariant(&*self);
        }
        let ghost old_self = *self;
        match self.find(k) {
            Some(i) => {
                proof {
                    old_self.lemma_view_at(i as int);
                }
                let mut entries: Vec<(K, V)> = Vec::new();
                std::mem::swap(&mut entries, &mut self.entries);
                let removed = entries.remove(i);
                proof {
                    let ii = i as int;
                    assert forall|a: int|
                        0 <= a < entries@.len() implies #[trigger] entries@[a] == (if a < ii {
                        old_self.entries@[a]
                    } else {
                        old_self.entries@[a + 1]
                    }) by {}
                    assert forall|a: int, b: int|
                        0 <= a < entries@.len() && 0 <= b < entries@.len() && a != b implies #[trigger] entries@[a].0
                        != #[trigger] entries@[b].0 by {
                        let oa = if a < ii {
                            a
                        } else {
                            a + 1
                        };
                        let ob = if b < ii {
                            b
                        } else {
                            b + 1
                        };
                        assert(old_self.entries@[oa].0 != old_self.entries@[ob].0);
                    }
                }
                self.entries = entries;
                proof {
                    let ii = i as int;
                    assert forall|a: int|
                        0 <= a < self.entries@.len() implies #[trigger] self.entries@[a] == (
                    if a < ii {
                        old_self.entries@[a]
                    } else {
                        old_self.entries@[a + 1]
                    }) by {}
                    assert forall|kk: K| #[trigger] self@.contains_key(kk) == old_self@.remove(
                        *k,
                    ).contains_key(kk) by {
                        if self@.contains_key(kk) {
                            let a = choose|a: int| #[trigger] seq_has_key_at(self.entries@, kk, a);
                            let oa = if a < ii {
                                a
                            } else {
                                a + 1
                            };
                            assert(seq_has_key_at(old_self.entries@, kk, oa));
                            assert(old_self.entries@[oa].0 != old_self.entries@[ii].0);
                        }
                        if old_self@.remove(*k).contains_key(kk) {
                            let oa = choose|a: int| #[trigger] seq_has_key_at(old_self.entries@, kk, a);
                            assert(oa != ii);
                            let a = if oa < ii {
                                oa
                            } else {
                                oa - 1
                            };
                            assert(seq_has_key_at(self.entries@, kk, a));
                        }
                    }
                    assert forall|kk: K| #[trigger] self@.contains_key(kk) implies self@[kk]
                        == old_self@.remove(*k)[kk] by {
                        let a = choose|a: int| #[trigger] seq_has_key_at(self.entries@, kk, a);
                        self.lemma_view_at(a);
                        let oa = if a < ii {
                            a
                        } else {
                            a + 1
                        };
                        old_self.lemma_view_at(oa);
                    }
                    assert(self@ =~= old_self@.remove(*k));
                }
                Some(removed.1)
            },
            None => {
                assert(self@ =~= old_self@.remove(*k));
                None
            },
        }
    }
}

} // verus!
