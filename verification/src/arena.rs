use crate::address::Address;
use vstd::prelude::*;

verus! {

/// One slot of an arena: a record under the address that keys it.
#[derive(Debug)]
pub struct Slot<V> {
    pub key: Address,
    pub value: V,
}

/// The record of the first slot that the address keys, if there is one.
pub open spec fn lookup<V>(slots: Seq<Slot<V>>, key: Address) -> Option<V>
    decreases slots.len(),
{
    if slots.len() == 0 {
        None
    } else if slots[0].key == key {
        Some(slots[0].value)
    } else {
        lookup(slots.drop_first(), key)
    }
}

/// Records keyed by address. An address keys at most one record: a record
/// stored under an address replaces the one that was there.
#[derive(Debug)]
pub struct Arena<V> {
    slots: Vec<Slot<V>>,
}

impl<V> View for Arena<V> {
    type V = Map<Address, V>;

    closed spec fn view(&self) -> Map<Address, V> {
        Map::new(
            |key: Address| lookup(self.slots@, key) is Some,
            |key: Address| lookup(self.slots@, key)->0,
        )
    }
}

/// Where no slot before `i` is keyed by the address, the lookup goes on
/// from slot `i`.
proof fn lemma_lookup_skip<V>(slots: Seq<Slot<V>>, key: Address, i: int)
    requires
        0 <= i <= slots.len(),
        forall|j: int| 0 <= j < i ==> slots[j].key != key,
    ensures
        lookup(slots, key) == lookup(slots.skip(i), key),
    decreases i,
{
    if i == 0 {
        assert(slots.skip(0) =~= slots);
    } else {
        lemma_lookup_skip(slots.drop_first(), key, i - 1);
        assert(slots.drop_first().skip(i - 1) =~= slots.skip(i));
    }
}

/// A lookup in slots to which one was appended: the appended slot is found
/// only where no earlier one is.
proof fn lemma_lookup_push<V>(slots: Seq<Slot<V>>, slot: Slot<V>, key: Address)
    ensures
        lookup(slots.push(slot), key) == match lookup(slots, key) {
            Some(value) => Some(value),
            None => if slot.key == key {
                Some(slot.value)
            } else {
                None
            },
        },
    decreases slots.len(),
{
    if slots.len() == 0 {
        assert(slots.push(slot).drop_first() =~= slots);
    } else {
        assert(slots.push(slot).drop_first() =~= slots.drop_first().push(slot));
        lemma_lookup_push(slots.drop_first(), slot, key);
    }
}

/// A lookup in slots of which the first one keyed by some address got a new
/// record: only the lookup of that address changes.
proof fn lemma_lookup_update<V>(slots: Seq<Slot<V>>, i: int, value: V, key: Address)
    requires
        0 <= i < slots.len(),
        forall|j: int| 0 <= j < i ==> slots[j].key != slots[i].key,
    ensures
        lookup(slots.update(i, Slot { key: slots[i].key, value }), key) == if key == slots[i].key {
            Some(value)
        } else {
            lookup(slots, key)
        },
    decreases i,
{
    let changed = slots.update(i, Slot { key: slots[i].key, value });
    if i == 0 {
        assert(changed.drop_first() =~= slots.drop_first());
    } else {
        lemma_lookup_update(slots.drop_first(), i - 1, value, key);
        assert(changed.drop_first() =~= slots.drop_first().update(
            i - 1,
            Slot { key: slots[i].key, value },
        ));
    }
}

impl<V: Copy> Arena<V> {
    /// An arena without records.
    pub fn new() -> (r: Arena<V>)
        ensures
            r@ == Map::<Address, V>::empty(),
    {
        let r = Arena { slots: Vec::new() };
        proof {
            assert(r@ =~= Map::<Address, V>::empty());
        }
        r
    }

    /// The index of the first slot that the address keys.
    fn position(&self, key: &Address) -> (r: Option<usize>)
        ensures
            match r {
                Some(i) => {
                    &&& i < self.slots@.len()
                    &&& self.slots@[i as int].key == *key
                    &&& forall|j: int| 0 <= j < i ==> self.slots@[j].key != *key
                    &&& lookup(self.slots@, *key) == Some(self.slots@[i as int].value)
                },
                None => lookup(self.slots@, *key) is None,
            },
    {
        let mut i: usize = 0;
        while i < self.slots.len()
            invariant
                i <= self.slots@.len(),
                forall|j: int| 0 <= j < i ==> self.slots@[j].key != *key,
            decreases self.slots@.len() - i,
        {
            if self.slots[i].key == *key {
                proof {
                    lemma_lookup_skip(self.slots@, *key, i as int);
                }
                return Some(i);
            }
            i += 1;
        }
        proof {
            lemma_lookup_skip(self.slots@, *key, i as int);
        }
        None
    }

    /// The record under the address, if there is one.
    pub fn get(&self, key: &Address) -> (r: Option<V>)
        ensures
            r == if self@.contains_key(*key) {
                Some(self@[*key])
            } else {
                None
            },
    {
        match self.position(key) {
            Some(i) => Some(self.slots[i].value),
            None => None,
        }
    }

    /// Stores the record under the address, in place of the one that was
    /// there if there was one.
    pub fn set(&mut self, key: Address, value: V)
        ensures
            final(self)@ == old(self)@.insert(key, value),
    {
        let ghost before = self.slots@;
        match self.position(&key) {
            Some(i) => {
                self.slots[i] = Slot { key, value };
                proof {
                    assert forall|k: Address| lookup(self.slots@, k) == (if k == key {
                        Some(value)
                    } else {
                        lookup(before, k)
                    }) by {
                        lemma_lookup_update(before, i as int, value, k);
                    }
                }
            },
            None => {
                self.slots.push(Slot { key, value });
                proof {
                    assert forall|k: Address| lookup(self.slots@, k) == (if k == key {
                        Some(value)
                    } else {
                        lookup(before, k)
                    }) by {
                        lemma_lookup_push(before, Slot { key, value }, k);
                    }
                }
            },
        }
        proof {
            assert(self@ =~= old(self)@.insert(key, value));
        }
    }

    /// An arena with the same records.
    pub fn duplicate(&self) -> (r: Arena<V>)
        ensures
            r@ == self@,
    {
        let mut slots: Vec<Slot<V>> = Vec::new();
        let mut i: usize = 0;
        while i < self.slots.len()
            invariant
                i <= self.slots@.len(),
                slots@ == self.slots@.take(i as int),
            decreases self.slots@.len() - i,
        {
            slots.push(Slot { key: self.slots[i].key, value: self.slots[i].value });
            proof {
                assert(self.slots@.take(i as int).push(self.slots@[i as int]) =~= self.slots@.take(
                    i + 1,
                ));
            }
            i += 1;
        }
        proof {
            assert(self.slots@.take(self.slots@.len() as int) =~= self.slots@);
        }
        Arena { slots }
    }
}

} // verus!
