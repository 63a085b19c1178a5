//! A keyed store backed by a pair of vectors, standing in for the host's
//! durable storage maps.  Keys are unique, and the store is viewed as the
//! finite map it spells.

use vstd::prelude::*;

use crate::account::AccountId;

verus! {

/// A type usable as a store key: its executable equality decides equality
/// of views.
pub trait StoreKey: View + Sized {
    /// Compares two keys; the answer reflects equality of their views.
    fn key_eq(&self, other: &Self) -> (r: bool)
        ensures
            r == (self@ == other@),
    ;
}

impl StoreKey for AccountId {
    fn key_eq(&self, other: &Self) -> (r: bool)
        ensures
            r == (self@ == other@),
    {
        self.eq_bytes(other)
    }
}

impl StoreKey for String {
    fn key_eq(&self, other: &Self) -> (r: bool)
        ensures
            r == (self@ == other@),
    {
        <String as PartialEq>::eq(self, other)
    }
}

/// A keyed store: a list of distinct keys and the value each one carries.
pub struct Table<K, V> {
    pub keys: Vec<K>,
    pub vals: Vec<V>,
}

impl<K: StoreKey, V> Table<K, V> {
    /// Keys and values line up and no key occurs twice.
    pub closed spec fn wf(self) -> bool {
        &&& self.keys@.len() == self.vals@.len()
        &&& forall|i: int, j: int|
            0 <= i < j < self.keys@.len() ==> self.keys@[i]@ != self.keys@[j]@
    }

    pub closed spec fn has_key(self, k: K::V) -> bool {
        exists|i: int| 0 <= i < self.keys@.len() && self.keys@[i]@ == k
    }

    pub closed spec fn key_index(self, k: K::V) -> int {
        choose|i: int| 0 <= i < self.keys@.len() && self.keys@[i]@ == k
    }

    /// In a well-formed table, the index of a key is the only position
    /// where that key occurs.
    pub proof fn lemma_key_index(self, i: int, k: K::V)
        requires
            self.wf(),
            0 <= i < self.keys@.len(),
            self.keys@[i]@ == k,
        ensures
            self.has_key(k),
            self.key_index(k) == i,
    {
        assert(self.has_key(k));
        let j = self.key_index(k);
        assert(0 <= j < self.keys@.len() && self.keys@[j]@ == k);
        if i < j {
            assert(self.keys@[i]@ != self.keys@[j]@);
        } else if j < i {
            assert(self.keys@[j]@ != self.keys@[i]@);
        }
    }
}

impl<K: StoreKey, V> View for Table<K, V> {
    type V = Map<K::V, V>;

    closed spec fn view(&self) -> Map<K::V, V> {
        Map::new(|k: K::V| self.has_key(k), |k: K::V| self.vals@[self.key_index(k)])
    }
}

impl<K: StoreKey, V: Copy> Table<K, V> {
    /// An empty store.
    pub fn new() -> (r: Table<K, V>)
        ensures
            r.wf(),
            r@ == Map::<K::V, V>::empty(),
    {
        let r = Table { keys: Vec::new(), vals: Vec::new() };
        proof {
            assert(r@ =~= Map::<K::V, V>::empty());
        }
        r
    }

    /// Looks a key up.
    pub fn get(&self, key: &K) -> (r: Option<V>)
        requires
            self.wf(),
        ensures
            self@.dom().contains(key@) ==> r == Some(self@[key@]),
            !self@.dom().contains(key@) ==> r is None,
    {
        let n = self.keys.len();
        let mut i: usize = 0;
        while i < n
            invariant
                self.wf(),
                n == self.keys@.len(),
                i <= n,
                forall|j: int| 0 <= j < i ==> self.keys@[j]@ != key@,
            decreases n - i,
        {
            if self.keys[i].key_eq(key) {
                proof {
                    self.lemma_key_index(i as int, key@);
                }
                return Some(self.vals[i]);
            }
            i += 1;
        }
        proof {
            assert(!self.has_key(key@));
        }
        None
    }

    /// Whether a key is present.
    pub fn contains_key(&self, key: &K) -> (r: bool)
        requires
            self.wf(),
        ensures
            r == self@.dom().contains(key@),
    {
        self.get(key).is_some()
    }

    /// Binds a key to a value, overwriting any previous binding.
    pub fn insert(&mut self, key: K, value: V)
        requires
            old(self).wf(),
        ensures
            final(self).wf(),
            final(self)@ == old(self)@.insert(key@, value),
    {
        let n = self.keys.len();
        let mut i: usize = 0;
        while i < n
            invariant
                self == old(self),
                self.wf(),
                n == self.keys@.len(),
                i <= n,
                forall|j: int| 0 <= j < i ==> self.keys@[j]@ != key@,
            decreases n - i,
        {
            if self.keys[i].key_eq(&key) {
                self.vals.set(i, value);
                proof {
                    self.lemma_key_index_stable(*old(self));
                    self.lemma_key_index(i as int, key@);
                    assert forall|k: K::V| self@.dom().contains(k) && k != key@ implies
                        self@[k] == old(self)@[k] by {
                        let j = self.key_index(k);
                        assert(0 <= j < self.keys@.len() && self.keys@[j]@ == k);
                        self.lemma_key_index(j, k);
                    }
                    assert(self@ =~= old(self)@.insert(key@, value));
                }
                return;
            }
            i += 1;
        }
        self.keys.push(key);
        self.vals.push(value);
        proof {
            let pre = *old(self);
            assert forall|a: int, b: int| 0 <= a < b < self.keys@.len() implies
                self.keys@[a]@ != self.keys@[b]@ by {
                if b < pre.keys@.len() {
                    assert(pre.keys@[a]@ != pre.keys@[b]@);
                }
            }
            self.lemma_key_index(n as int, key@);
            assert forall|k: K::V| self.has_key(k) && k != key@ implies
                pre.has_key(k) && self@[k] == pre@[k] by {
                let j = self.key_index(k);
                assert(0 <= j < self.keys@.len() && self.keys@[j]@ == k);
                assert(j != n);
                assert(pre.keys@[j]@ == k);
                pre.lemma_key_index(j, k);
            }
            assert forall|k: K::V| pre.has_key(k) implies self.has_key(k) by {
                let j = pre.key_index(k);
                assert(0 <= j < pre.keys@.len() && pre.keys@[j]@ == k);
                assert(self.keys@[j]@ == k);
            }
            assert(self@ =~= old(self)@.insert(key@, value));
        }
    }
}

impl<K: StoreKey, V> Table<K, V> {
    /// Two tables with the same keys give every present key the same index.
    pub proof fn lemma_key_index_stable(self, other: Table<K, V>)
        requires
            self.wf(),
            self.keys@ == other.keys@,
        ensures
            forall|k: K::V| self.has_key(k) ==> other.has_key(k)
                && self.key_index(k) == other.key_index(k),
    {
        assert forall|k: K::V| self.has_key(k) implies other.has_key(k)
            && self.key_index(k) == other.key_index(k) by {
            let i = self.key_index(k);
            assert(0 <= i < self.keys@.len() && self.keys@[i]@ == k);
            assert(other.keys@[i]@ == k);
            assert(other.has_key(k));
            let j = other.key_index(k);
            assert(0 <= j < other.keys@.len() && other.keys@[j]@ == k);
            if i < j {
                assert(self.keys@[i]@ != self.keys@[j]@);
            } else if j < i {
                assert(self.keys@[j]@ != self.keys@[i]@);
            }
        }
    }
}

} // verus!
