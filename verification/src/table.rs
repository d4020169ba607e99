//! A small address-keyed store with a running total of what its records hold.

use vstd::prelude::*;
use crate::address::Address;

verus! {

/// The amount that a record contributes to the total of its store.
pub trait Weighted {
    spec fn weight(&self) -> nat;
}

impl Weighted for u64 {
    open spec fn weight(&self) -> nat {
        *self as nat
    }
}

/// Sum of the weights of a sequence of records.
pub open spec fn total_weight<V: Weighted>(values: Seq<V>) -> nat
    decreases values.len(),
{
    if values.len() == 0 {
        0
    } else {
        total_weight(values.drop_last()) + values.last().weight()
    }
}

proof fn lemma_total_push<V: Weighted>(values: Seq<V>, value: V)
    ensures
        total_weight(values.push(value)) == total_weight(values) + value.weight(),
{
    assert(values.push(value).drop_last() =~= values);
}

proof fn lemma_total_update<V: Weighted>(values: Seq<V>, i: int, value: V)
    requires
        0 <= i < values.len(),
    ensures
        total_weight(values.update(i, value)) == total_weight(values) - values[i].weight()
            + value.weight(),
        values[i].weight() <= total_weight(values),
    decreases values.len(),
{
    let changed = values.update(i, value);
    if i == values.len() - 1 {
        assert(changed.drop_last() =~= values.drop_last());
    } else {
        lemma_total_update(values.drop_last(), i, value);
        assert(changed.drop_last() =~= values.drop_last().update(i, value));
    }
}

proof fn lemma_total_remove<V: Weighted>(values: Seq<V>, i: int)
    requires
        0 <= i < values.len(),
    ensures
        total_weight(values.remove(i)) == total_weight(values) - values[i].weight(),
    decreases values.len(),
{
    let rest = values.remove(i);
    if i == values.len() - 1 {
        assert(rest =~= values.drop_last());
    } else {
        lemma_total_remove(values.drop_last(), i);
        assert(rest.drop_last() =~= values.drop_last().remove(i));
        assert(rest.last() == values.last());
    }
}

/// Records keyed by address. No address occurs twice.
pub struct Table<V> {
    keys: Vec<Address>,
    values: Vec<V>,
}

impl<V> View for Table<V> {
    type V = Map<Address, V>;

    closed spec fn view(&self) -> Map<Address, V> {
        Map::new(
            |k: Address| self.keys@.contains(k),
            |k: Address| self.values@[self.keys@.index_of(k)],
        )
    }
}

impl<V: Copy + Weighted> Table<V> {
    /// Internal consistency: one value per key, no key twice.
    pub closed spec fn wf(&self) -> bool {
        &&& self.keys@.len() == self.values@.len()
        &&& self.keys@.no_duplicates()
    }

    /// Sum of the weights of all records in the store.
    pub closed spec fn total(&self) -> nat {
        total_weight(self.values@)
    }

    /// What `key` contributes to the total: the weight of its record, or
    /// nothing where it has none.
    pub open spec fn weight_at(&self, key: Address) -> nat {
        if self@.contains_key(key) {
            self@[key].weight()
        } else {
            0
        }
    }

    proof fn lemma_slot(&self, i: int)
        requires
            self.wf(),
            0 <= i < self.keys@.len(),
        ensures
            self@.contains_key(self.keys@[i]),
            self@[self.keys@[i]] == self.values@[i],
            self.keys@.index_of(self.keys@[i]) == i,
    {
        let k = self.keys@[i];
        assert(self.keys@.contains(k));
        let j = self.keys@.index_of(k);
        assert(0 <= j < self.keys@.len() && self.keys@[j] == k);
    }

    /// No record weighs more than the whole store.
    pub proof fn lemma_weight_within_total(&self, key: Address)
        requires
            self.wf(),
        ensures
            self.weight_at(key) <= self.total(),
    {
        if self@.contains_key(key) {
            let i = self.keys@.index_of(key);
            assert(0 <= i < self.keys@.len() && self.keys@[i] == key);
            lemma_total_update(self.values@, i, self.values@[i]);
        }
    }

    /// An empty store.
    pub fn new() -> (t: Table<V>)
        ensures
            t.wf(),
            t@ == Map::<Address, V>::empty(),
            t.total() == 0,
    {
        let t = Table { keys: Vec::new(), values: Vec::new() };
        assert(t@ =~= Map::<Address, V>::empty());
        t
    }

    fn position(&self, key: &Address) -> (at: Option<usize>)
        requires
            self.wf(),
        ensures
            match at {
                Some(i) => i < self.keys@.len() && self.keys@[i as int] == *key,
                None => !self.keys@.contains(*key),
            },
    {
        let mut i: usize = 0;
        while i < self.keys.len()
            invariant
                i <= self.keys@.len(),
                forall|j: int| 0 <= j < i ==> self.keys@[j] != *key,
            decreases self.keys@.len() - i,
        {
            if self.keys[i].eq(key) {
                return Some(i);
            }
            i = i + 1;
        }
        None
    }

    /// The record stored under `key`, if there is one.
    pub fn get(&self, key: &Address) -> (found: Option<V>)
        requires
            self.wf(),
        ensures
            found == (if self@.contains_key(*key) {
                Some(self@[*key])
            } else {
                None
            }),
    {
        match self.position(key) {
            Some(i) => {
                proof {
                    self.lemma_slot(i as int);
                }
                Some(self.values[i])
            },
            None => None,
        }
    }

    /// Stores `value` under `key`, replacing what was there.
    pub fn insert(&mut self, key: Address, value: V)
        requires
            old(self).wf(),
        ensures
            final(self).wf(),
            final(self)@ == old(self)@.insert(key, value),
            final(self).total() == old(self).total() - old(self).weight_at(key) + value.weight(),
    {
        let ghost before = *self;
        match self.position(&key) {
            Some(i) => {
                proof {
                    before.lemma_slot(i as int);
                    lemma_total_update(before.values@, i as int, value);
                }
                self.values.set(i, value);
                assert(self@ =~= before@.insert(key, value)) by {
                    assert forall|k: Address| self@.contains_key(k) implies #[trigger] self@[k]
                        == before@.insert(key, value)[k] by {
                        let j = self.keys@.index_of(k);
                        assert(0 <= j < self.keys@.len() && self.keys@[j] == k);
                    }
                }
            },
            None => {
                proof {
                    lemma_total_push(before.values@, value);
                }
                self.keys.push(key);
                self.values.push(value);
                assert(self.keys@.no_duplicates());
                assert(self@ =~= before@.insert(key, value)) by {
                    assert(self.keys@[before.keys@.len() as int] == key);
                    assert forall|k: Address| before@.contains_key(k) implies self@.contains_key(
                        k,
                    ) by {
                        let j = before.keys@.index_of(k);
                        assert(self.keys@[j] == k);
                    }
                    assert forall|k: Address| self@.contains_key(k) implies #[trigger] self@[k]
                        == before@.insert(key, value)[k] by {
                        let j = self.keys@.index_of(k);
                        assert(0 <= j < self.keys@.len() && self.keys@[j] == k);
                        if k != key {
                            assert(before.keys@[j] == k);
                            before.lemma_slot(j);
                        }
                    }
                }
            },
        }
    }

    /// Takes the record under `key` out of the store and hands it back.
    pub fn remove(&mut self, key: &Address) -> (gone: Option<V>)
        requires
            old(self).wf(),
        ensures
            final(self).wf(),
            final(self)@ == old(self)@.remove(*key),
            gone == (if old(self)@.contains_key(*key) {
                Some(old(self)@[*key])
            } else {
                None
            }),
            final(self).total() == old(self).total() - old(self).weight_at(*key),
    {
        let ghost before = *self;
        match self.position(key) {
            Some(i) => {
                proof {
                    before.lemma_slot(i as int);
                    lemma_total_remove(before.values@, i as int);
                }
                self.keys.remove(i);
                let value = self.values.remove(i);
                assert(self.keys@.no_duplicates()) by {
                    assert forall|a: int, b: int|
                        0 <= a < self.keys@.len() && 0 <= b < self.keys@.len() && a
                            != b implies self.keys@[a] != self.keys@[b] by {
                        let a0 = if a < i { a } else { a + 1 };
                        let b0 = if b < i { b } else { b + 1 };
                        assert(self.keys@[a] == before.keys@[a0]);
                        assert(self.keys@[b] == before.keys@[b0]);
                    }
                }
                assert(self@ =~= before@.remove(*key)) by {
                    assert forall|k: Address| self@.contains_key(k) implies k != *key
                        && before@.contains_key(k) && #[trigger] self@[k] == before@[k] by {
                        let j = self.keys@.index_of(k);
                        assert(0 <= j < self.keys@.len() && self.keys@[j] == k);
                        let j0 = if j < i { j } else { j + 1 };
                        assert(before.keys@[j0] == k);
                        before.lemma_slot(j0);
                    }
                    assert forall|k: Address| before@.contains_key(k) && k
                        != *key implies self@.contains_key(k) by {
                        let j0 = before.keys@.index_of(k);
                        assert(0 <= j0 < before.keys@.len() && before.keys@[j0] == k);
                        let j = if j0 < i { j0 } else { j0 - 1 };
                        assert(self.keys@[j] == k);
                    }
                }
                Some(value)
            },
            None => {
                assert(self@ =~= before@.remove(*key));
                None
            },
        }
    }
}

} // verus!
