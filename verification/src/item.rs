//! The per-player item slot. A slot holds at most one item: the slot *is*
//! a single value of `Item`, and acquiring an item is refused while the
//! slot is occupied.

use vstd::prelude::*;

verus! {

/// What a player's single item slot holds. `Empty` is the unoccupied slot.
#[derive(Copy, Clone, PartialEq, Eq, Structural, Debug)]
pub enum Item {
    Empty,
    Rapier,
    CrystalBall,
    TrumpCard,
}

/// The shop price of the rapier.
pub const RAPIER_COST: u32 = 10;

impl Item {
    /// Whether the slot is occupied.
    pub open spec fn spec_is_held(&self) -> bool {
        !(self is Empty)
    }

    #[verifier::when_used_as_spec(spec_is_held)]
    pub fn is_held(&self) -> (r: bool)
        ensures
            r == self.spec_is_held(),
    {
        !matches!(self, Item::Empty)
    }

    /// Tries to put `item` into the slot; fails if it is occupied.
    pub fn acquire(&mut self, item: Item) -> (r: bool)
        ensures
            r == !old(self).spec_is_held(),
            *final(self) == if old(self).spec_is_held() {
                *old(self)
            } else {
                item
            },
    {
        if self.is_held() {
            false
        } else {
            *self = item;
            true
        }
    }

    /// Empties the slot, returning what it held.
    pub fn take(&mut self) -> (r: Item)
        ensures
            r == *old(self),
            *final(self) == Item::Empty,
    {
        let held = *self;
        *self = Item::Empty;
        held
    }
}

/// A slot never holds more than one item: the slot is a single `Item`
/// value, and acquiring into an occupied slot is refused — the slot that
/// `acquire` leaves behind is the old item, not the new one.
pub proof fn lemma_slot_holds_at_most_one(slot: Item, item: Item)
    requires
        slot.spec_is_held(),
    ensures
        (if slot.spec_is_held() {
            slot
        } else {
            item
        }) == slot,
{
}

} // verus!
