//! A store of records by address.
//!
//! An address holds at most one record. Creating a record at an address that
//! holds one already fails, which is what makes a record that lives at an
//! address derived from its identity unique.

use vstd::prelude::*;
use crate::pubkey::Pubkey;

verus! {

/// A record with the address it lives at.
struct Entry<V> {
    key: Pubkey,
    value: V,
}

/// Records of one type, by address. Its view is the map from each occupied
/// address to the record there.
pub struct Table<V> {
    entries: Vec<Entry<V>>,
}

impl<V> View for Table<V> {
    type V = Map<Pubkey, V>;

    closed spec fn view(&self) -> Map<Pubkey, V> {
        Map::new(|key: Pubkey| self.has(key), |key: Pubkey| self.entries@[self.slot(key)].value)
    }
}

impl<V> Table<V> {
    /// No address occurs twice.
    pub closed spec fn wf(&self) -> bool {
        forall|i: int, j: int|
            0 <= i < j < self.entries@.len() ==> (#[trigger] self.entries@[i]).key != (
            #[trigger] self.entries@[j]).key
    }

    spec fn has(&self, key: Pubkey) -> bool {
        exists|i: int| 0 <= i < self.entries@.len() && (#[trigger] self.entries@[i]).key == key
    }

    spec fn slot(&self, key: Pubkey) -> int {
        choose|i: int| 0 <= i < self.entries@.len() && (#[trigger] self.entries@[i]).key == key
    }

    proof fn lemma_slot(&self, key: Pubkey, i: int)
        requires
            self.wf(),
            0 <= i < self.entries@.len(),
            self.entries@[i].key == key,
        ensures
            self.has(key),
            self.slot(key) == i,
            self@.contains_key(key),
            self@[key] == self.entries@[i].value,
    {
        let j = self.slot(key);
        assert(0 <= j < self.entries@.len() && self.entries@[j].key == key);
        if i < j {
            assert(self.entries@[i].key != self.entries@[j].key);
        } else if j < i {
            assert(self.entries@[j].key != self.entries@[i].key);
        }
    }

    /// A table without records.
    pub fn new() -> (r: Table<V>)
        ensures
            r.wf(),
            r@ == Map::<Pubkey, V>::empty(),
    {
        let r = Table { entries: Vec::new() };
        assert(r@ =~= Map::<Pubkey, V>::empty());
        r
    }

    /// Where in the table the record of `key` stands, if it has one.
    fn position(&self, key: &Pubkey) -> (r: Option<usize>)
        ensures
            match r {
                Some(i) => i < self.entries@.len() && self.entries@[i as int].key == *key,
                None => !self.has(*key),
            },
    {
        let mut i: usize = 0;
        while i < self.entries.len()
            invariant
                i <= self.entries@.len(),
                forall|j: int| 0 <= j < i ==> (#[trigger] self.entries@[j]).key != *key,
            decreases self.entries@.len() - i,
        {
            if self.entries[i].key == *key {
                return Some(i);
            }
            i = i + 1;
        }
        None
    }

    /// Whether a record lives at `key`.
    pub fn contains_key(&self, key: &Pubkey) -> (r: bool)
        ensures
            r == self@.contains_key(*key),
    {
        self.position(key).is_some()
    }

    /// The record at `key`, if there is one.
    pub fn get(&self, key: &Pubkey) -> (r: Option<&V>)
        requires
            self.wf(),
        ensures
            match r {
                Some(value) => self@.contains_key(*key) && *value == self@[*key],
                None => !self@.contains_key(*key),
            },
    {
        match self.position(key) {
            Some(i) => {
                proof {
                    self.lemma_slot(*key, i as int);
                }
                Some(&self.entries[i].value)
            },
            None => None,
        }
    }

    /// Creates a record at `key`, unless one lives there already: then the
    /// table stays as it is, and the answer is `false`.
    pub fn insert(&mut self, key: Pubkey, value: V) -> (created: bool)
        requires
            old(self).wf(),
        ensures
            final(self).wf(),
            created == !old(self)@.contains_key(key),
            created ==> final(self)@ == old(self)@.insert(key, value),
            !created ==> final(self)@ == old(self)@,
    {
        match self.position(&key) {
            Some(_) => false,
            None => {
                let ghost before = *self;
                self.entries.push(Entry { key, value });
                proof {
                    let n = before.entries@.len() as int;
                    assert(self.entries@[n].key == key);
                    assert(self.wf()) by {
                        assert forall|i: int, j: int| 0 <= i < j < self.entries@.len() implies (
                        #[trigger] self.entries@[i]).key != (#[trigger] self.entries@[j]).key by {
                            if j < n {
                                assert(before.entries@[i].key != before.entries@[j].key);
                            } else {
                                assert(before.entries@[i].key != key);
                            }
                        }
                    }
                    assert forall|k: Pubkey| #[trigger]
                        self@.contains_key(k) == before@.insert(key, value).contains_key(k) by {
                        if before.has(k) {
                            let i = before.slot(k);
                            assert(self.entries@[i].key == k);
                        }
                        if self.has(k) && k != key {
                            let i = self.slot(k);
                            assert(before.entries@[i].key == k);
                        }
                    }
                    assert forall|k: Pubkey| #[trigger] self@.contains_key(k) implies self@[k]
                        == before@.insert(key, value)[k] by {
                        if k == key {
                            self.lemma_slot(k, n);
                        } else {
                            let i = self.slot(k);
                            assert(before.entries@[i].key == k);
                            before.lemma_slot(k, i);
                            self.lemma_slot(k, i);
                        }
                    }
                    assert(self@ =~= before@.insert(key, value));
                }
                true
            },
        }
    }

    /// Puts `value` at `key`, in place of the record there if there is one.
    pub fn set(&mut self, key: Pubkey, value: V)
        requires
            old(self).wf(),
        ensures
            final(self).wf(),
            final(self)@ == old(self)@.insert(key, value),
    {
        match self.position(&key) {
            Some(at) => {
                let ghost before = *self;
                self.entries[at] = Entry { key, value };
                proof {
                    assert forall|i: int| 0 <= i < self.entries@.len() implies (
                    #[trigger] self.entries@[i]).key == before.entries@[i].key by {}
                    assert(self.wf()) by {
                        assert forall|i: int, j: int| 0 <= i < j < self.entries@.len() implies (
                        #[trigger] self.entries@[i]).key != (#[trigger] self.entries@[j]).key by {
                            assert(before.entries@[i].key != before.entries@[j].key);
                        }
                    }
                    assert forall|k: Pubkey| #[trigger]
                        self@.contains_key(k) == before@.insert(key, value).contains_key(k) by {
                        if before.has(k) {
                            let i = before.slot(k);
                            assert(self.entries@[i].key == k);
                        }
                        if self.has(k) {
                            let i = self.slot(k);
                            assert(before.entries@[i].key == k);
                        }
                        assert(self.entries@[at as int].key == key);
                        assert(before.entries@[at as int].key == key);
                    }
                    assert forall|k: Pubkey| #[trigger] self@.contains_key(k) implies self@[k]
                        == before@.insert(key, value)[k] by {
                        let i = self.slot(k);
                        assert(before.entries@[i].key == k);
                        before.lemma_slot(k, i);
                        self.lemma_slot(k, i);
                    }
                    assert(self@ =~= before@.insert(key, value));
                }
            },
            None => {
                let created = self.insert(key, value);
                assert(created);
            },
        }
    }

    /// The occupied addresses, in the order in which they were taken.
    pub closed spec fn keys(&self) -> Seq<Pubkey> {
        Seq::new(self.entries@.len(), |i: int| self.entries@[i].key)
    }

    /// The occupied addresses are the addresses of the view, each once.
    pub proof fn lemma_keys(&self)
        requires
            self.wf(),
        ensures
            self.keys().len() == self@.len(),
            self.keys().no_duplicates(),
            forall|key: Pubkey| #[trigger] self@.contains_key(key) <==> self.keys().contains(key),
    {
        self.lemma_len();
        assert forall|i: int, j: int|
            0 <= i < self.keys().len() && 0 <= j < self.keys().len() && i != j implies self.keys()[i]
            != self.keys()[j] by {
            if i < j {
                assert(self.entries@[i].key != self.entries@[j].key);
            } else {
                assert(self.entries@[j].key != self.entries@[i].key);
            }
        }
        assert forall|key: Pubkey| #[trigger] self@.contains_key(key) <==> self.keys().contains(
            key,
        ) by {
            if self@.contains_key(key) {
                let i = self.slot(key);
                assert(self.keys()[i] == key);
            }
            if self.keys().contains(key) {
                let i = choose|i: int| 0 <= i < self.keys().len() && self.keys()[i] == key;
                assert(self.entries@[i].key == key);
            }
        }
    }

    /// The `i`-th occupied address and the record there.
    pub fn entry_at(&self, i: usize) -> (r: (&Pubkey, &V))
        requires
            self.wf(),
            i < self.keys().len(),
        ensures
            *r.0 == self.keys()[i as int],
            self@.contains_key(*r.0),
            *r.1 == self@[*r.0],
    {
        proof {
            self.lemma_slot(self.entries@[i as int].key, i as int);
        }
        (&self.entries[i].key, &self.entries[i].value)
    }

    /// The number of records.
    pub fn len(&self) -> (n: usize)
        requires
            self.wf(),
        ensures
            n == self@.len(),
            n == self.keys().len(),
            self@.dom().finite(),
    {
        proof {
            self.lemma_len();
        }
        self.entries.len()
    }

    proof fn lemma_len(&self)
        requires
            self.wf(),
        ensures
            self@.dom().finite(),
            self@.len() == self.entries@.len(),
    {
        self.lemma_len_upto(self.entries@.len() as int);
        assert(self@.dom() =~= self.keys_upto(self.entries@.len() as int));
    }

    spec fn keys_upto(&self, n: int) -> Set<Pubkey> {
        Set::new(|key: Pubkey| exists|i: int| 0 <= i < n && (#[trigger] self.entries@[i]).key == key)
    }

    proof fn lemma_len_upto(&self, n: int)
        requires
            self.wf(),
            0 <= n <= self.entries@.len(),
        ensures
            self.keys_upto(n).finite(),
            self.keys_upto(n).len() == n,
        decreases n,
    {
        if n == 0 {
            assert(self.keys_upto(0) =~= Set::<Pubkey>::empty());
        } else {
            self.lemma_len_upto(n - 1);
            let last = self.entries@[n - 1].key;
            assert(!self.keys_upto(n - 1).contains(last)) by {
                if self.keys_upto(n - 1).contains(last) {
                    let i = choose|i: int| 0 <= i < n - 1 && (#[trigger] self.entries@[i]).key == last;
                    assert(self.entries@[i].key != self.entries@[n - 1].key);
                }
            }
            assert(self.keys_upto(n) =~= self.keys_upto(n - 1).insert(last)) by {
                assert forall|k: Pubkey| self.keys_upto(n).contains(k) implies self.keys_upto(
                    n - 1,
                ).insert(last).contains(k) by {
                    let i = choose|i: int| 0 <= i < n && (#[trigger] self.entries@[i]).key == k;
                    if i < n - 1 {
                        assert(self.keys_upto(n - 1).contains(k));
                    }
                }
                assert forall|k: Pubkey| self.keys_upto(n - 1).insert(last).contains(
                    k,
                ) implies self.keys_upto(n).contains(k) by {
                    if k == last {
                        assert(self.entries@[n - 1].key == k);
                    } else {
                        let i = choose|i: int| 0 <= i < n - 1 && (#[trigger] self.entries@[i]).key == k;
                        assert(self.entries@[i].key == k);
                    }
                }
            }
        }
    }
}

} // verus!
