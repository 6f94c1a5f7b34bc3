//! An association table from type identities to entries.

use crate::erasure::same_identity;
use core::any::TypeId;
use vstd::prelude::*;

verus! {

/// One identity with the entry stored under it.
struct Slot<E> {
    key: TypeId,
    entry: E,
}

/// Maps type identities to entries of type `E`. No identity occurs twice, and
/// an entry stored under an identity replaces the one that was there.
pub struct HandlerTable<E> {
    slots: Vec<Slot<E>>,
}

/// Whether some slot holds `key`.
spec fn holds_key<E>(slots: Seq<Slot<E>>, key: TypeId) -> bool {
    exists|i: int| 0 <= i < slots.len() && (#[trigger] slots[i]).key == key
}

/// The first position of `key` in `slots`, or the length of `slots` when no
/// slot holds it.
spec fn position_of<E>(slots: Seq<Slot<E>>, key: TypeId) -> int
    decreases slots.len(),
{
    if slots.len() == 0 {
        0
    } else if slots[0].key == key {
        0
    } else {
        1 + position_of(slots.subrange(1, slots.len() as int), key)
    }
}

/// `position_of` stays within bounds, points at the first slot that holds
/// `key`, and equals the length exactly when no slot holds `key`.
proof fn lemma_position_of<E>(slots: Seq<Slot<E>>, key: TypeId)
    ensures
        0 <= position_of(slots, key) <= slots.len(),
        position_of(slots, key) < slots.len() ==> slots[position_of(slots, key)].key == key,
        position_of(slots, key) < slots.len() <==> holds_key(slots, key),
        forall|i: int| 0 <= i < position_of(slots, key) ==> (#[trigger] slots[i]).key != key,
    decreases slots.len(),
{
    if slots.len() == 0 {
    } else if slots[0].key == key {
        assert(slots[0].key == key);
    } else {
        let rest = slots.subrange(1, slots.len() as int);
        lemma_position_of(rest, key);
        assert forall|i: int| 0 <= i < position_of(slots, key) implies (#[trigger] slots[i]).key
            != key by {
            if i > 0 {
                assert(rest[i - 1] == slots[i]);
            }
        }
        if holds_key(rest, key) {
            let j = choose|j: int| 0 <= j < rest.len() && (#[trigger] rest[j]).key == key;
            assert(slots[j + 1].key == key);
        }
        if holds_key(slots, key) {
            let j = choose|j: int| 0 <= j < slots.len() && (#[trigger] slots[j]).key == key;
            assert(rest[j - 1].key == key);
        }
    }
}

/// The slots as a map: the identities that some slot holds, each with the
/// entry of the first slot that holds it.
spec fn as_map<E>(slots: Seq<Slot<E>>) -> Map<TypeId, E> {
    Map::new(
        |key: TypeId| holds_key(slots, key),
        |key: TypeId| slots[position_of(slots, key)].entry,
    )
}

/// No identity is held by two slots.
spec fn distinct_keys<E>(slots: Seq<Slot<E>>) -> bool {
    forall|i: int, j: int|
        0 <= i < j < slots.len() ==> (#[trigger] slots[i]).key != (#[trigger] slots[j]).key
}

/// Replacing the slot that holds `key` stores the new entry under `key` and
/// leaves every other identity as it was.
proof fn lemma_replace<E>(slots: Seq<Slot<E>>, at: int, key: TypeId, entry: E)
    requires
        distinct_keys(slots),
        0 <= at < slots.len(),
        slots[at].key == key,
    ensures
        distinct_keys(slots.update(at, Slot { key, entry })),
        as_map(slots.update(at, Slot { key, entry })) == as_map(slots).insert(key, entry),
{
    let after = slots.update(at, Slot { key, entry });
    assert forall|k: TypeId| holds_key(after, k) <==> holds_key(slots, k) by {
        if holds_key(after, k) {
            let j = choose|j: int| 0 <= j < after.len() && (#[trigger] after[j]).key == k;
            assert(slots[j].key == k);
        }
        if holds_key(slots, k) {
            let j = choose|j: int| 0 <= j < slots.len() && (#[trigger] slots[j]).key == k;
            assert(after[j].key == k);
        }
    }
    assert forall|k: TypeId| holds_key(after, k) implies as_map(after)[k] == as_map(
        slots,
    ).insert(key, entry)[k] by {
        lemma_position_of(after, k);
        lemma_position_of(slots, k);
        assert(slots[position_of(after, k)].key == k);
    }
    assert(as_map(after) =~= as_map(slots).insert(key, entry));
}

/// Appending a slot for a `key` that no slot holds stores the entry under
/// `key` and leaves every other identity as it was.
proof fn lemma_append<E>(slots: Seq<Slot<E>>, key: TypeId, entry: E)
    requires
        distinct_keys(slots),
        !holds_key(slots, key),
    ensures
        distinct_keys(slots.push(Slot { key, entry })),
        as_map(slots.push(Slot { key, entry })) == as_map(slots).insert(key, entry),
{
    let after = slots.push(Slot { key, entry });
    assert forall|i: int, j: int| 0 <= i < j < after.len() implies (#[trigger] after[i]).key
        != (#[trigger] after[j]).key by {
        if j == slots.len() {
            assert(slots[i].key != key);
        } else {
            assert(after[i] == slots[i]);
            assert(after[j] == slots[j]);
        }
    }
    assert forall|k: TypeId| holds_key(after, k) <==> (holds_key(slots, k) || k == key) by {
        if holds_key(after, k) {
            let j = choose|j: int| 0 <= j < after.len() && (#[trigger] after[j]).key == k;
            if j < slots.len() {
                assert(slots[j].key == k);
            }
        }
        if holds_key(slots, k) {
            let j = choose|j: int| 0 <= j < slots.len() && (#[trigger] slots[j]).key == k;
            assert(after[j].key == k);
        }
        if k == key {
            assert(after[slots.len() as int].key == k);
        }
    }
    assert forall|k: TypeId| holds_key(after, k) implies as_map(after)[k] == as_map(
        slots,
    ).insert(key, entry)[k] by {
        lemma_position_of(after, k);
        lemma_position_of(slots, k);
        if k != key {
            assert(after[position_of(slots, k)].key == k);
        }
    }
    assert(as_map(after) =~= as_map(slots).insert(key, entry));
}

impl<E> HandlerTable<E> {
    #[verifier::type_invariant]
    spec fn well_formed(&self) -> bool {
        distinct_keys(self.slots@)
    }

    /// The table as a map from each identity that has an entry to that entry.
    pub closed spec fn view(&self) -> Map<TypeId, E> {
        as_map(self.slots@)
    }

    /// A table holds finitely many entries.
    pub proof fn lemma_finite(&self)
        ensures
            self@.dom().finite(),
    {
        let keys = self.slots@.map_values(|slot: Slot<E>| slot.key);
        vstd::seq_lib::seq_to_set_is_finite(keys);
        assert forall|key: TypeId| self@.dom().contains(key) implies keys.to_set().contains(key) by {
            let i = choose|i: int| 0 <= i < self.slots@.len() && (#[trigger] self.slots@[i]).key == key;
            assert(keys[i] == key);
        }
        vstd::set_lib::lemma_len_subset(self@.dom(), keys.to_set());
    }

    /// A table without entries.
    pub fn new() -> (table: Self)
        ensures
            table@ == Map::<TypeId, E>::empty(),
    {
        let table = HandlerTable { slots: Vec::new() };
        assert(table@ =~= Map::<TypeId, E>::empty());
        table
    }

    /// The entry stored under `key`, if there is one.
    pub fn get(&self, key: &TypeId) -> (found: Option<&E>)
        ensures
            match found {
                Some(entry) => self@.contains_key(*key) && *entry == self@[*key],
                None => !self@.contains_key(*key),
            },
    {
        match locate(&self.slots, key) {
            Some(i) => Some(&self.slots[i].entry),
            None => None,
        }
    }

    /// Stores `entry` under `key`. An entry that was stored under `key` before
    /// is dropped; every other identity keeps its entry.
    pub fn insert(&mut self, key: TypeId, entry: E)
        ensures
            final(self)@ == old(self)@.insert(key, entry),
    {
        proof {
            use_type_invariant(&*self);
        }
        let mut slots: Vec<Slot<E>> = Vec::new();
        core::mem::swap(&mut slots, &mut self.slots);
        match locate(&slots, &key) {
            Some(i) => {
                proof {
                    lemma_replace(slots@, i as int, key, entry);
                }
                slots.set(i, Slot { key, entry });
            },
            None => {
                proof {
                    lemma_append(slots@, key, entry);
                }
                slots.push(Slot { key, entry });
            },
        }
        self.slots = slots;
    }
}

/// The position of the first slot that holds `key`, if some slot does.
fn locate<E>(slots: &Vec<Slot<E>>, key: &TypeId) -> (found: Option<usize>)
    ensures
        match found {
            Some(i) => i < slots@.len() && i == position_of(slots@, *key) && slots@[i as int].key
                == *key,
            None => !holds_key(slots@, *key),
        },
{
    let mut i: usize = 0;
    while i < slots.len()
        invariant
            i <= slots@.len(),
            forall|j: int| 0 <= j < i ==> (#[trigger] slots@[j]).key != *key,
        decreases slots@.len() - i,
    {
        if same_identity(&slots[i].key, key) {
            proof {
                lemma_position_of(slots@, *key);
            }
            return Some(i);
        }
        i = i + 1;
    }
    None
}

} // verus!
