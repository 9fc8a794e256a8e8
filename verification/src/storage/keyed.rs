//! A small map from string keys to values, kept as a list without duplicate
//! keys in the order keys were first inserted.

use vstd::prelude::*;

verus! {

/// A map from string keys to values.
pub struct KeyedList<V> {
    items: Vec<(String, V)>,
}

/// Whether `k` is the key of some item.
pub open spec fn has_key<V>(items: Seq<(String, V)>, k: Seq<char>) -> bool {
    exists|i: int| 0 <= i < items.len() && (#[trigger] items[i]).0@ == k
}

/// Whether no key occurs twice.
pub open spec fn unique_keys<V>(items: Seq<(String, V)>) -> bool {
    forall|i: int, j: int|
        0 <= i < items.len() && 0 <= j < items.len() && i != j ==> (#[trigger] items[i]).0@ != (#[trigger] items[j]).0@
}

/// The map that a list of items without duplicate keys stands for.
pub open spec fn items_map<V: View>(items: Seq<(String, V)>) -> Map<Seq<char>, V::V> {
    Map::new(
        |k: Seq<char>| has_key(items, k),
        |k: Seq<char>| items[choose|i: int| 0 <= i < items.len() && (#[trigger] items[i]).0@ == k].1@,
    )
}

/// The value at the one index whose key is `k`, when keys are unique.
pub proof fn lemma_value_at<V: View>(items: Seq<(String, V)>, i: int)
    requires
        unique_keys(items),
        0 <= i < items.len(),
    ensures
        items_map(items).dom().contains(items[i].0@),
        items_map(items)[items[i].0@] == items[i].1@,
{
    let k = items[i].0@;
    assert(has_key(items, k));
    let j = choose|j: int| 0 <= j < items.len() && (#[trigger] items[j]).0@ == k;
    assert(j == i);
}

impl<V: View> View for KeyedList<V> {
    type V = Map<Seq<char>, V::V>;

    closed spec fn view(&self) -> Map<Seq<char>, V::V> {
        items_map(self.items@)
    }
}

impl<V> KeyedList<V> {
    /// No key occurs twice.
    #[verifier::type_invariant]
    spec fn keys_unique(self) -> bool {
        unique_keys(self.items@)
    }
}

impl<V: View> KeyedList<V> {
    /// The items, in the order their keys were first inserted.
    pub closed spec fn entries(&self) -> Seq<(String, V)> {
        self.items@
    }

    /// Returns the entries in order; no key occurs twice and they stand for
    /// the map.
    pub fn items(&self) -> (r: &Vec<(String, V)>)
        ensures
            r@ == self.entries(),
            unique_keys(r@),
            self@ == items_map(r@),
        opens_invariants none
        no_unwind
    {
        proof { use_type_invariant(self); }
        &self.items
    }

    /// Creates an empty map.
    pub fn new() -> (r: Self)
        ensures
            r@ == Map::<Seq<char>, V::V>::empty(),
            r.entries() == Seq::<(String, V)>::empty(),
    {
        let r = KeyedList { items: Vec::new() };
        assert(r@ =~= Map::<Seq<char>, V::V>::empty());
        r
    }

    /// The index of the item whose key is `key`.
    fn position(&self, key: &String) -> (r: Option<usize>)
        ensures
            match r {
                Some(i) => i < self.items@.len() && self.items@[i as int].0@ == key@,
                None => !has_key(self.items@, key@),
            },
    {
        let mut i: usize = 0;
        while i < self.items.len()
            invariant
                i <= self.items@.len(),
                forall|j: int| 0 <= j < i ==> (#[trigger] self.items@[j]).0@ != key@,
            decreases self.items@.len() - i,
        {
            if self.items[i].0 == *key {
                return Some(i);
            }
            i = i + 1;
        }
        None
    }

    /// The value stored under `key`.
    pub fn get(&self, key: &str) -> (r: Option<&V>)
        ensures
            match r {
                Some(v) => self@.dom().contains(key@) && self@[key@] == v@,
                None => !self@.dom().contains(key@),
            },
    {
        proof { use_type_invariant(self); }
        let key = key.to_owned();
        match self.position(&key) {
            Some(i) => {
                proof { lemma_value_at(self.items@, i as int); }
                Some(&self.items[i].1)
            },
            None => None,
        }
    }

    /// Stores `value` under `key`, replacing any previous value.
    pub fn insert(&mut self, key: String, value: V)
        ensures
            final(self)@ == old(self)@.insert(key@, value@),
    {
        proof { use_type_invariant(&*self); }
        let ghost k = key@;
        let ghost v = value@;
        match self.position(&key) {
            Some(i) => {
                let ghost before = self.items@;
                let ghost after = before.update(i as int, (key, value));
                assert(unique_keys(after)) by {
                    assert forall|a: int, b: int|
                        0 <= a < after.len() && 0 <= b < after.len() && a != b implies
                        (#[trigger] after[a]).0@ != (#[trigger] after[b]).0@ by {
                        if a != i && b != i {
                            assert(before[a] == after[a] && before[b] == after[b]);
                        } else if a == i {
                            assert(before[b] == after[b]);
                            assert(before[i as int].0@ == k);
                        } else {
                            assert(before[a] == after[a]);
                            assert(before[i as int].0@ == k);
                        }
                    }
                }
                let mut items: Vec<(String, V)> = Vec::new();
                std::mem::swap(&mut items, &mut self.items);
                items.set(i, (key, value));
                assert(items@ == after);
                self.items = items;
                proof {
                    assert(items_map(after) =~= items_map(before).insert(k, v)) by {
                        assert forall|kk: Seq<char>| #[trigger] items_map(after).dom().contains(kk)
                            == items_map(before).insert(k, v).dom().contains(kk) by {
                            if has_key(after, kk) {
                                let j = choose|j: int| 0 <= j < after.len() && (#[trigger] after[j]).0@ == kk;
                                if j != i {
                                    assert(before[j] == after[j]);
                                }
                            }
                            if has_key(before, kk) {
                                let j = choose|j: int| 0 <= j < before.len() && (#[trigger] before[j]).0@ == kk;
                                if j != i {
                                    assert(before[j] == after[j]);
                                } else {
                                    assert(after[i as int].0@ == k);
                                }
                            }
                            if kk == k {
                                assert(after[i as int].0@ == k);
                            }
                        }
                        assert forall|kk: Seq<char>| #[trigger] items_map(after).dom().contains(kk)
                            implies items_map(after)[kk] == items_map(before).insert(k, v)[kk] by {
                            let j = choose|j: int| 0 <= j < after.len() && (#[trigger] after[j]).0@ == kk;
                            lemma_value_at(after, j);
                            if j != i {
                                assert(before[j] == after[j]);
                                lemma_value_at(before, j);
                            }
                        }
                    }
                }
            },
            None => {
                let ghost before = self.items@;
                let ghost after = before.push((key, value));
                assert(unique_keys(after)) by {
                    assert forall|a: int, b: int|
                        0 <= a < after.len() && 0 <= b < after.len() && a != b implies
                        (#[trigger] after[a]).0@ != (#[trigger] after[b]).0@ by {
                        if a < before.len() && b < before.len() {
                            assert(before[a] == after[a] && before[b] == after[b]);
                        } else if a < before.len() {
                            assert(before[a] == after[a]);
                        } else {
                            assert(before[b] == after[b]);
                        }
                    }
                }
                let mut items: Vec<(String, V)> = Vec::new();
                std::mem::swap(&mut items, &mut self.items);
                items.push((key, value));
                assert(items@ == after);
                self.items = items;
                proof {
                    assert(items_map(after) =~= items_map(before).insert(k, v)) by {
                        assert forall|kk: Seq<char>| #[trigger] items_map(after).dom().contains(kk)
                            == items_map(before).insert(k, v).dom().contains(kk) by {
                            if has_key(after, kk) {
                                let j = choose|j: int| 0 <= j < after.len() && (#[trigger] after[j]).0@ == kk;
                                if j < before.len() {
                                    assert(before[j] == after[j]);
                                }
                            }
                            if has_key(before, kk) {
                                let j = choose|j: int| 0 <= j < before.len() && (#[trigger] before[j]).0@ == kk;
                                assert(before[j] == after[j]);
                            }
                            if kk == k {
                                assert(after[before.len() as int].0@ == k);
                            }
                        }
                        assert forall|kk: Seq<char>| #[trigger] items_map(after).dom().contains(kk)
                            implies items_map(after)[kk] == items_map(before).insert(k, v)[kk] by {
                            let j = choose|j: int| 0 <= j < after.len() && (#[trigger] after[j]).0@ == kk;
                            lemma_value_at(after, j);
                            if j < before.len() {
                                assert(before[j] == after[j]);
                                lemma_value_at(before, j);
                            }
                        }
                    }
                }
            },
        }
    }

    /// Removes the value stored under `key`, if any.
    pub fn remove(&mut self, key: &str)
        ensures
            final(self)@ == old(self)@.remove(key@),
    {
        proof { use_type_invariant(&*self); }
        let key = key.to_owned();
        let ghost k = key@;
        match self.position(&key) {
            Some(i) => {
                let ghost before = self.items@;
                let ghost after = before.remove(i as int);
                assert(unique_keys(after)) by {
                    assert forall|a: int, b: int|
                        0 <= a < after.len() && 0 <= b < after.len() && a != b implies
                        (#[trigger] after[a]).0@ != (#[trigger] after[b]).0@ by {
                        let a0 = if a < i { a } else { a + 1 };
                        let b0 = if b < i { b } else { b + 1 };
                        assert(after[a] == before[a0] && after[b] == before[b0]);
                    }
                }
                let mut items: Vec<(String, V)> = Vec::new();
                std::mem::swap(&mut items, &mut self.items);
                let _removed = items.remove(i);
                assert(items@ == after);
                self.items = items;
                proof {
                    assert(items_map(after) =~= items_map(before).remove(k)) by {
                        assert forall|kk: Seq<char>| #[trigger] items_map(after).dom().contains(kk)
                            == items_map(before).remove(k).dom().contains(kk) by {
                            if has_key(after, kk) {
                                let j = choose|j: int| 0 <= j < after.len() && (#[trigger] after[j]).0@ == kk;
                                let j0 = if j < i { j } else { j + 1 };
                                assert(after[j] == before[j0]);
                            }
                            if has_key(before, kk) && kk != k {
                                let j = choose|j: int| 0 <= j < before.len() && (#[trigger] before[j]).0@ == kk;
                                assert(j != i);
                                let j1 = if j < i { j } else { j - 1 };
                                assert(after[j1] == before[j]);
                            }
                            if has_key(after, kk) && kk == k {
                                let j = choose|j: int| 0 <= j < after.len() && (#[trigger] after[j]).0@ == kk;
                                let j0 = if j < i { j } else { j + 1 };
                                assert(after[j] == before[j0]);
                                assert(before[i as int].0@ == k);
                            }
                        }
                        assert forall|kk: Seq<char>| #[trigger] items_map(after).dom().contains(kk)
                            implies items_map(after)[kk] == items_map(before).remove(k)[kk] by {
                            let j = choose|j: int| 0 <= j < after.len() && (#[trigger] after[j]).0@ == kk;
                            lemma_value_at(after, j);
                            let j0 = if j < i { j } else { j + 1 };
                            assert(after[j] == before[j0]);
                            lemma_value_at(before, j0);
                        }
                    }
                }
            },
            None => {
                proof {
                    assert(items_map(self.items@) =~= items_map(self.items@).remove(k));
                }
            },
        }
    }

    /// Removes every key.
    pub fn clear(&mut self)
        ensures
            final(self)@ == Map::<Seq<char>, V::V>::empty(),
    {
        self.items = Vec::new();
        proof {
            assert(items_map(self.items@) =~= Map::<Seq<char>, V::V>::empty());
        }
    }
}

} // verus!
