//! State that outlives the frame, kept under the identifier of the widget
//! that owns it.

use crate::types::Id;
use std::collections::HashMap;
use vstd::prelude::*;

verus! {

broadcast use vstd::std_specs::hash::group_hash_axioms;

/// One small value for each identifier that was ever looked up. A slot is
/// made on its first lookup and never removed.
pub struct Storage {
    slots: HashMap<Id, u32>,
}

/// What a lookup of `id` yields: the stored value, or `default` where the
/// identifier has no slot yet.
pub open spec fn stored_or(slots: Map<Id, u32>, id: Id, default: u32) -> u32 {
    if slots.contains_key(id) {
        slots[id]
    } else {
        default
    }
}

/// The slots after a lookup of `id` whose handle was left untouched.
pub open spec fn touched(slots: Map<Id, u32>, id: Id, default: u32) -> Map<Id, u32> {
    slots.insert(id, stored_or(slots, id, default))
}

impl View for Storage {
    type V = Map<Id, u32>;

    closed spec fn view(&self) -> Map<Id, u32> {
        self.slots@
    }
}

impl Storage {
    /// A storage without slots.
    pub fn new() -> (storage: Storage)
        ensures
            storage@ == Map::<Id, u32>::empty(),
    {
        Storage { slots: HashMap::new() }
    }

    /// A handle to the slot of `id`, which is made with `default` where it
    /// is missing. What the caller leaves in the handle is what the slot holds
    /// afterwards; no other slot changes.
    pub fn get_or_insert_default(&mut self, id: Id, default: u32) -> (slot: &mut u32)
        ensures
            *slot == stored_or(old(self)@, id, default),
            final(self)@ == old(self)@.insert(id, *final(slot)),
    {
        self.slots.entry(id).or_insert(default)
    }

    /// The value under `id`, if the identifier has a slot.
    pub fn get(&self, id: Id) -> (value: Option<u32>)
        ensures
            value == (if self@.contains_key(id) {
                Some(self@[id])
            } else {
                None
            }),
    {
        match self.slots.get(&id) {
            Some(v) => Some(*v),
            None => None,
        }
    }
}

/// A second lookup of the same identifier yields what the first one did,
/// whatever defaults the two were given.
pub proof fn lemma_lookup_is_stable(slots: Map<Id, u32>, id: Id, first: u32, second: u32)
    ensures
        stored_or(touched(slots, id, first), id, second) == stored_or(slots, id, first),
        touched(touched(slots, id, first), id, second) == touched(slots, id, first),
{
    assert(touched(touched(slots, id, first), id, second) =~= touched(slots, id, first));
}

/// Slots under different identifiers do not alias: whatever is written
/// through the handle of `id`, a lookup of `other` yields what it did before.
pub proof fn lemma_slots_do_not_alias(
    slots: Map<Id, u32>,
    id: Id,
    written: u32,
    other: Id,
    default: u32,
)
    requires
        id != other,
    ensures
        stored_or(slots.insert(id, written), other, default) == stored_or(slots, other, default),
        slots.insert(id, written).contains_key(other) == slots.contains_key(other),
{
}

} // verus!
