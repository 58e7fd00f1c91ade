//! The slots of an inventory, held by the engine.
//!
//! A slot is empty or holds a stack: an item kind and a count between 1 and
//! 127. What else the engine keeps with a stack is left as it is.

use vstd::prelude::*;
use valence::{ItemKind, ItemStack};
use crate::registry::ItemId;

verus! {

#[verifier::external_type_specification]
#[verifier::external_body]
pub struct ExInventory(valence::inventory::Inventory);

/// The slots of an inventory in order: for each an item id and a count, or
/// `None` for an empty slot.
pub uninterp spec fn inventory_slots(inventory: valence::inventory::Inventory) -> Seq<
    Option<(int, int)>,
>;

/// A number of items of one kind.
#[derive(Clone, Copy, Debug, PartialEq, Eq, Structural)]
pub struct Stack {
    pub item: ItemId,
    pub count: u8,
}

/// The count that the engine keeps when asked for `count`: at least 1 and
/// at most 127.
pub open spec fn kept_count(count: int) -> int {
    if count < 1 {
        1
    } else if count > 127 {
        127
    } else {
        count
    }
}

/// What a slot holds, as ids.
pub open spec fn slot_view(slot: Option<Stack>) -> Option<(int, int)> {
    match slot {
        Some(s) => Some((s.item@, s.count as int)),
        None => None,
    }
}

/// What a slot holds once the engine has taken `slot` in.
pub open spec fn slot_kept(slot: Option<Stack>) -> Option<(int, int)> {
    match slot {
        Some(s) => Some((s.item@, kept_count(s.count as int))),
        None => None,
    }
}

/// The slots after the count of slot `index` is set to `count`: an empty
/// slot stays empty.
pub open spec fn with_count(slots: Seq<Option<(int, int)>>, index: int, count: int) -> Seq<
    Option<(int, int)>,
>
    recommends
        0 <= index < slots.len(),
{
    match slots[index] {
        Some((item, _)) => slots.update(index, Some((item, kept_count(count)))),
        None => slots,
    }
}

/// Trusted: `Inventory::slot_count` of valence returns the number of slots.
#[verifier::external_body]
fn slot_count(inventory: &valence::inventory::Inventory) -> (count: u16)
    ensures
        count == inventory_slots(*inventory).len(),
{
    inventory.slot_count()
}

/// Trusted: `Inventory::slot` of valence returns the stack of a slot, or
/// `None` for an empty one; it panics past the last slot. The engine keeps
/// the count of every stack between 1 and 127.
#[verifier::external_body]
fn stack_at(inventory: &valence::inventory::Inventory, index: u16) -> (slot: Option<Stack>)
    requires
        index < inventory_slots(*inventory).len(),
    ensures
        slot_view(slot) == inventory_slots(*inventory)[index as int],
        slot matches Some(s) ==> 1 <= s.count <= 127,
{
    inventory.slot(index).map(|s| Stack { item: ItemId { raw: s.item.to_raw() }, count: s.count() })
}

/// Trusted: `Inventory::set_slot_amount` of valence sets the count of the
/// stack in a slot, brought into the range from 1 to 127, and does nothing
/// to an empty slot; it panics past the last slot.
#[verifier::external_body]
fn set_amount(inventory: &mut valence::inventory::Inventory, index: u16, count: u8)
    requires
        index < inventory_slots(*old(inventory)).len(),
    ensures
        inventory_slots(*final(inventory)) == with_count(
            inventory_slots(*old(inventory)),
            index as int,
            count as int,
        ),
{
    inventory.set_slot_amount(index, count);
}

/// Trusted: `Inventory::set_slot` of valence replaces what a slot holds; it
/// panics past the last slot. `ItemStack::new` brings the count into the
/// range from 1 to 127.
#[verifier::external_body]
fn set_stack(inventory: &mut valence::inventory::Inventory, index: u16, slot: Option<Stack>)
    requires
        index < inventory_slots(*old(inventory)).len(),
        slot matches Some(s) ==> s.item.wf(),
    ensures
        inventory_slots(*final(inventory)) == inventory_slots(*old(inventory)).update(
            index as int,
            slot_kept(slot),
        ),
{
    let kind = |s: Stack| ItemKind::from_raw(s.item.raw).unwrap();
    inventory.set_slot(index, slot.map(|s| ItemStack::new(kind(s), s.count, None)));
}

/// What slot `index` holds; a slot that the inventory does not have holds
/// nothing.
pub open spec fn held(slots: Seq<Option<(int, int)>>, index: int) -> Option<(int, int)> {
    if 0 <= index < slots.len() {
        slots[index]
    } else {
        None
    }
}

/// The slots after `slot` is put into slot `index`. An inventory without
/// such a slot stays as it is.
pub open spec fn put(slots: Seq<Option<(int, int)>>, index: int, slot: Option<(int, int)>) -> Seq<
    Option<(int, int)>,
> {
    if 0 <= index < slots.len() {
        slots.update(index, slot)
    } else {
        slots
    }
}

/// The slots after one item is taken from slot `index`: the count goes
/// down by one, and a stack of one item leaves the slot empty.
pub open spec fn taken_one(slots: Seq<Option<(int, int)>>, index: int) -> Seq<Option<(int, int)>> {
    match held(slots, index) {
        Some((item, count)) => if count <= 1 {
            slots.update(index, None)
        } else {
            slots.update(index, Some((item, count - 1)))
        },
        None => slots,
    }
}

/// The number of slots.
pub fn slots_len(inventory: &valence::inventory::Inventory) -> (count: u16)
    ensures
        count == inventory_slots(*inventory).len(),
{
    slot_count(inventory)
}

/// The stack in slot `index`, or `None` where the slot is empty or the
/// inventory has no such slot.
pub fn stack_in(inventory: &valence::inventory::Inventory, index: u16) -> (slot: Option<Stack>)
    ensures
        slot_view(slot) == held(inventory_slots(*inventory), index as int),
        slot matches Some(s) ==> 1 <= s.count <= 127,
{
    if index < slot_count(inventory) {
        stack_at(inventory, index)
    } else {
        None
    }
}

/// Puts `slot` into slot `index` and says whether the inventory has such a
/// slot. The engine keeps a count between 1 and 127.
pub fn put_stack(inventory: &mut valence::inventory::Inventory, index: u16, slot: Option<Stack>) -> (done:
    bool)
    ensures
        done == (index < inventory_slots(*old(inventory)).len()),
        inventory_slots(*final(inventory)) == put(
            inventory_slots(*old(inventory)),
            index as int,
            slot_kept(slot),
        ),
{
    if index < slot_count(inventory) {
        proof {
            if let Some(s) = slot {
                use_type_invariant(&s.item);
            }
        }
        set_stack(inventory, index, slot);
        true
    } else {
        false
    }
}

/// Takes one item from slot `index`. An empty or missing slot stays as it
/// is; the last item of a stack leaves the slot empty.
pub fn take_one(inventory: &mut valence::inventory::Inventory, index: u16)
    ensures
        inventory_slots(*final(inventory)) == taken_one(
            inventory_slots(*old(inventory)),
            index as int,
        ),
{
    match stack_in(inventory, index) {
        None => {},
        Some(stack) => {
            if stack.count <= 1 {
                set_stack(inventory, index, None);
            } else {
                set_amount(inventory, index, stack.count - 1);
            }
        },
    }
}

} // verus!
