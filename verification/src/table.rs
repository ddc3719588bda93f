//! Keyed storage: at most one value under each key.

use vstd::prelude::*;

verus! {

/// One key with the value stored under it.
pub struct Slot<V> {
    key: String,
    value: V,
}

/// A table from string keys to values. Its view is the map from each key to
/// the view of its value.
pub struct Table<V> {
    slots: Vec<Slot<V>>,
}

/// Some slot of `slots` carries `key`.
spec fn has_key<V>(slots: Seq<Slot<V>>, key: Seq<char>) -> bool {
    exists|i: int| 0 <= i < slots.len() && #[trigger] slots[i].key@ == key
}

/// A position in `slots` that carries `key`, where there is one.
spec fn slot_of<V>(slots: Seq<Slot<V>>, key: Seq<char>) -> int {
    choose|i: int| 0 <= i < slots.len() && #[trigger] slots[i].key@ == key
}

/// No key stands in two slots.
spec fn distinct_keys<V>(slots: Seq<Slot<V>>) -> bool {
    forall|i: int, j: int|
        0 <= i < j < slots.len() ==> #[trigger] slots[i].key@ != #[trigger] slots[j].key@
}

/// The map that a sequence of slots stands for.
spec fn as_map<V: View>(slots: Seq<Slot<V>>) -> Map<Seq<char>, V::V> {
    Map::new(|key: Seq<char>| has_key(slots, key), |key: Seq<char>| slots[slot_of(slots, key)].value@)
}

/// With distinct keys, the slot at `i` is the one that its key leads to.
proof fn lemma_slot_found<V: View>(slots: Seq<Slot<V>>, i: int)
    requires
        distinct_keys(slots),
        0 <= i < slots.len(),
    ensures
        has_key(slots, slots[i].key@),
        slot_of(slots, slots[i].key@) == i,
        as_map(slots).contains_key(slots[i].key@),
        as_map(slots)[slots[i].key@] == slots[i].value@,
{
}

/// A key that no slot carries is outside the map.
proof fn lemma_slot_missing<V: View>(slots: Seq<Slot<V>>, key: Seq<char>)
    requires
        forall|j: int| 0 <= j < slots.len() ==> (#[trigger] slots[j]).key@ != key,
    ensures
        !has_key(slots, key),
        !as_map(slots).contains_key(key),
{
}

/// Every key of the map sits in some slot.
proof fn lemma_key_has_slot<V: View>(slots: Seq<Slot<V>>, key: Seq<char>)
    requires
        as_map(slots).contains_key(key),
    ensures
        0 <= slot_of(slots, key) < slots.len(),
        slots[slot_of(slots, key)].key@ == key,
{
}

impl<V: View> View for Table<V> {
    type V = Map<Seq<char>, V::V>;

    closed spec fn view(&self) -> Map<Seq<char>, V::V> {
        as_map(self.slots@)
    }
}

impl<V: View> Table<V> {
    /// The table's invariant: no key is stored twice.
    pub closed spec fn wf(&self) -> bool {
        distinct_keys(self.slots@)
    }

    /// An empty table.
    pub fn new() -> (table: Self)
        ensures
            table.wf(),
            table@ == Map::<Seq<char>, V::V>::empty(),
    {
        let table = Table { slots: Vec::new() };
        proof {
            assert forall|key: Seq<char>| !as_map(table.slots@).contains_key(key) by {
                lemma_slot_missing(table.slots@, key);
            }
        }
        table
    }

    /// The position of the slot that carries `key`.
    fn find(&self, key: &String) -> (at: Option<usize>)
        ensures
            match at {
                Some(i) => i < self.slots@.len() && self.slots@[i as int].key@ == key@,
                None => forall|j: int| 0 <= j < self.slots@.len() ==> (#[trigger] self.slots@[j]).key@ != key@,
            },
    {
        let mut i: usize = 0;
        while i < self.slots.len()
            invariant
                i <= self.slots@.len(),
                forall|j: int| 0 <= j < i ==> (#[trigger] self.slots@[j]).key@ != key@,
            decreases self.slots@.len() - i,
        {
            if self.slots[i].key == *key {
                return Some(i);
            }
            i += 1;
        }
        None
    }

    /// The value stored under `key`, if there is one.
    pub fn get(&self, key: &String) -> (found: Option<&V>)
        requires
            self.wf(),
        ensures
            match found {
                Some(value) => self@.contains_key(key@) && value@ == self@[key@],
                None => !self@.contains_key(key@),
            },
    {
        match self.find(key) {
            Some(i) => {
                proof {
                    lemma_slot_found(self.slots@, i as int);
                }
                Some(&self.slots[i].value)
            },
            None => {
                proof {
                    lemma_slot_missing(self.slots@, key@);
                }
                None
            },
        }
    }

    /// Takes the value stored under `key` out of the table, if there is one.
    pub fn remove(&mut self, key: &String) -> (removed: Option<V>)
        requires
            old(self).wf(),
        ensures
            final(self).wf(),
            final(self)@ == old(self)@.remove(key@),
            match removed {
                Some(value) => old(self)@.contains_key(key@) && value@ == old(self)@[key@],
                None => !old(self)@.contains_key(key@),
            },
    {
        match self.find(key) {
            Some(i) => {
                let ghost before = self.slots@;
                let slot = self.slots.remove(i);
                proof {
                    let after = self.slots@;
                    lemma_slot_found(before, i as int);
                    assert forall|k: Seq<char>| #[trigger]
                        as_map(after).contains_key(k) == as_map(before).remove(key@).contains_key(k) by {
                        if as_map(after).contains_key(k) {
                            lemma_key_has_slot(after, k);
                            let a = slot_of(after, k);
                            lemma_slot_found(before, if a < i { a } else { a + 1 });
                        }
                        if as_map(before).remove(key@).contains_key(k) {
                            lemma_key_has_slot(before, k);
                            let b = slot_of(before, k);
                            lemma_slot_found(after, if b < i { b } else { b - 1 });
                        }
                    }
                    assert forall|k: Seq<char>| as_map(after).contains_key(k) implies #[trigger] as_map(
                        after,
                    )[k] == as_map(before).remove(key@)[k] by {
                        lemma_key_has_slot(after, k);
                        let a = slot_of(after, k);
                        lemma_slot_found(before, if a < i { a } else { a + 1 });
                        lemma_slot_found(after, a);
                    }
                }
                Some(slot.value)
            },
            None => {
                proof {
                    lemma_slot_missing(self.slots@, key@);
                }
                None
            },
        }
    }

    /// Stores `value` under `key` and hands back the value that it replaces.
    pub fn insert(&mut self, key: String, value: V) -> (previous: Option<V>)
        requires
            old(self).wf(),
        ensures
            final(self).wf(),
            final(self)@ == old(self)@.insert(key@, value@),
            match previous {
                Some(replaced) => old(self)@.contains_key(key@) && replaced@ == old(self)@[key@],
                None => !old(self)@.contains_key(key@),
            },
    {
        let previous = self.remove(&key);
        let ghost before = self.slots@;
        let ghost k0 = key@;
        let ghost v0 = value@;
        self.slots.push(Slot { key, value });
        proof {
            let after = self.slots@;
            let last = before.len() as int;
            assert forall|a: int, b: int| 0 <= a < b < after.len() implies #[trigger] after[a].key@
                != #[trigger] after[b].key@ by {
                if b == last {
                    lemma_slot_found(before, a);
                }
            }
            assert forall|k: Seq<char>| #[trigger]
                as_map(after).contains_key(k) == as_map(before).insert(k0, v0).contains_key(k) by {
                if as_map(after).contains_key(k) {
                    lemma_key_has_slot(after, k);
                    let a = slot_of(after, k);
                    if a < last {
                        lemma_slot_found(before, a);
                    }
                }
                if as_map(before).insert(k0, v0).contains_key(k) {
                    if k == k0 {
                        lemma_slot_found(after, last);
                    } else {
                        lemma_key_has_slot(before, k);
                        lemma_slot_found(after, slot_of(before, k));
                    }
                }
            }
            assert forall|k: Seq<char>| as_map(after).contains_key(k) implies #[trigger] as_map(after)[k]
                == as_map(before).insert(k0, v0)[k] by {
                lemma_key_has_slot(after, k);
                let a = slot_of(after, k);
                lemma_slot_found(after, a);
                if a < last {
                    lemma_slot_found(before, a);
                }
            }
        }
        previous
    }
}

} // verus!
