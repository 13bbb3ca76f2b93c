//! Keyed storage: a map from keys to values held as a list of entries with
//! distinct keys, viewed as a `Map`.
use vstd::prelude::*;

verus! {

/// A key that can be compared at run time with the same meaning as `==` in
/// specifications.
pub trait StorageKey: Copy {
    fn key_eq(&self, other: &Self) -> (r: bool)
        ensures
            r == (*self == *other),
    ;
}

impl StorageKey for u64 {
    fn key_eq(&self, other: &Self) -> (r: bool) {
        *self == *other
    }
}

impl StorageKey for [u8; 32] {
    fn key_eq(&self, other: &Self) -> (r: bool) {
        let mut i: usize = 0;
        while i < 32
            invariant
                i <= 32,
                forall|j: int| 0 <= j < i ==> self[j] == other[j],
            decreases 32 - i,
        {
            if self[i] != other[i] {
                return false;
            }
            i = i + 1;
        }
        assert(*self =~= *other);
        true
    }
}

/// `k` is the key of the entry at index `i` of `s`.
pub open spec fn key_at<K, V>(s: Seq<(K, V)>, i: int, k: K) -> bool {
    0 <= i < s.len() && s[i].0 == k
}

/// No two entries of `s` share a key.
pub open spec fn distinct_keys<K, V>(s: Seq<(K, V)>) -> bool {
    forall|i: int, j: int| 0 <= i < s.len() && 0 <= j < s.len() && i != j ==> s[i].0 != s[j].0
}

/// The map that a list of entries stands for.
pub open spec fn entries_map<K, V>(s: Seq<(K, V)>) -> Map<K, V> {
    Map::new(
        |k: K| exists|i: int| #[trigger] key_at(s, i, k),
        |k: K| s[choose|i: int| #[trigger] key_at(s, i, k)].1,
    )
}

/// With distinct keys, the entry at `i` is what the map holds for its key.
pub proof fn lemma_entry_in_map<K, V>(s: Seq<(K, V)>, i: int)
    requires
        distinct_keys(s),
        0 <= i < s.len(),
    ensures
        entries_map(s).contains_key(s[i].0),
        entries_map(s)[s[i].0] == s[i].1,
{
    let k = s[i].0;
    assert(key_at(s, i, k));
    let c = choose|c: int| #[trigger] key_at(s, c, k);
    assert(key_at(s, c, k));
    assert(c == i);
}

pub struct StorageMap<K, V> {
    entries: Vec<(K, V)>,
}

impl<K: StorageKey, V> StorageMap<K, V> {
    pub closed spec fn wf(&self) -> bool {
        distinct_keys(self.entries@)
    }

    pub closed spec fn view(&self) -> Map<K, V> {
        entries_map(self.entries@)
    }

    pub fn new() -> (r: Self)
        ensures
            r.wf(),
            r.view() == Map::<K, V>::empty(),
    {
        let r = StorageMap { entries: Vec::new() };
        assert(r.view() =~= Map::<K, V>::empty());
        r
    }

    /// The index of the entry with key `k`, if there is one.
    fn find(&self, k: &K) -> (r: Option<usize>)
        requires
            self.wf(),
        ensures
            match r {
                Some(i) => key_at(self.entries@, i as int, *k),
                None => !self.view().contains_key(*k),
            },
    {
        let mut i: usize = 0;
        while i < self.entries.len()
            invariant
                i <= self.entries.len(),
                forall|j: int| 0 <= j < i ==> self.entries@[j].0 != *k,
            decreases self.entries.len() - i,
        {
            if self.entries[i].0.key_eq(k) {
                return Some(i);
            }
            i = i + 1;
        }
        assert forall|j: int| !key_at(self.entries@, j, *k) by {}
        None
    }

    pub fn contains_key(&self, k: &K) -> (r: bool)
        requires
            self.wf(),
        ensures
            r == self.view().contains_key(*k),
    {
        match self.find(k) {
            Some(i) => {
                proof {
                    lemma_entry_in_map(self.entries@, i as int);
                }
                true
            },
            None => false,
        }
    }

    pub fn get(&self, k: &K) -> (r: Option<&V>)
        requires
            self.wf(),
        ensures
            match r {
                Some(v) => self.view().contains_key(*k) && *v == self.view()[*k],
                None => !self.view().contains_key(*k),
            },
    {
        match self.find(k) {
            Some(i) => {
                proof {
                    lemma_entry_in_map(self.entries@, i as int);
                }
                Some(&self.entries[i].1)
            },
            None => None,
        }
    }

    pub fn insert(&mut self, k: K, v: V)
        requires
            old(self).wf(),
        ensures
            final(self).wf(),
            final(self).view() == old(self).view().insert(k, v),
    {
        let ghost old_s = self.entries@;
        match self.find(&k) {
            Some(i) => {
                self.entries.set(i, (k, v));
                let ghost s = self.entries@;
                assert(distinct_keys(s));
                assert forall|key: K| #[trigger] self.view().contains_key(key)
                    == old(self).view().insert(k, v).contains_key(key) by {
                    if old(self).view().contains_key(key) {
                        let c = choose|c: int| #[trigger] key_at(old_s, c, key);
                        assert(key_at(s, c, key));
                    }
                    if self.view().contains_key(key) {
                        let c = choose|c: int| #[trigger] key_at(s, c, key);
                        if c != i {
                            assert(key_at(old_s, c, key));
                        }
                    }
                    assert(key_at(s, i as int, k));
                }
                assert forall|key: K| #[trigger] self.view().contains_key(key) implies
                    self.view()[key] == old(self).view().insert(k, v)[key] by {
                    let c = choose|c: int| #[trigger] key_at(s, c, key);
                    lemma_entry_in_map(s, c);
                    if c != i {
                        assert(key_at(old_s, c, key));
                        lemma_entry_in_map(old_s, c);
                    }
                }
                assert(self.view() =~= old(self).view().insert(k, v));
            },
            None => {
                self.entries.push((k, v));
                let ghost s = self.entries@;
                let ghost n = old_s.len() as int;
                assert forall|a: int, b: int| 0 <= a < s.len() && 0 <= b < s.len() && a != b
                    implies s[a].0 != s[b].0 by {
                    if a == n {
                        assert(!key_at(old_s, b, k));
                    } else if b == n {
                        assert(!key_at(old_s, a, k));
                    }
                }
                assert forall|key: K| #[trigger] self.view().contains_key(key)
                    == old(self).view().insert(k, v).contains_key(key) by {
                    if old(self).view().contains_key(key) {
                        let c = choose|c: int| #[trigger] key_at(old_s, c, key);
                        assert(key_at(s, c, key));
                    }
                    if self.view().contains_key(key) {
                        let c = choose|c: int| #[trigger] key_at(s, c, key);
                        if c != n {
                            assert(key_at(old_s, c, key));
                        }
                    }
                    assert(key_at(s, n, k));
                }
                assert forall|key: K| #[trigger] self.view().contains_key(key) implies
                    self.view()[key] == old(self).view().insert(k, v)[key] by {
                    let c = choose|c: int| #[trigger] key_at(s, c, key);
                    lemma_entry_in_map(s, c);
                    if c != n {
                        assert(key_at(old_s, c, key));
                        lemma_entry_in_map(old_s, c);
                    }
                }
                assert(self.view() =~= old(self).view().insert(k, v));
            },
        }
    }
}

} // verus!
