//! What a player's action does to the world and to the inventory.
//!
//! A dig event empties a cell, depending on the game mode and on the phase
//! of the dig. An interact event places the block of the held item against
//! the face that was struck and takes one item from the held stack. What
//! cannot be acted on is passed over: nothing changes and nothing fails.

use vstd::prelude::*;
use valence::inventory::Inventory;
use valence::ChunkLayer;
use crate::inventory::{held, inventory_slots, stack_in, take_one, taken_one};
use crate::orientation::Face;
use crate::registry::{air, item_block, state_kind, CellState};
use crate::shape::{place, placed, resolve, resolved, Placement, Strike};
use crate::world::{in_grid, loaded_cells, step, write_cell, written, Position};

verus! {

/// The mode in which a player plays.
#[derive(Clone, Copy, Debug, PartialEq, Eq, Structural)]
pub enum Gamemode {
    Survival,
    Creative,
    Adventure,
    Spectator,
}

impl Default for Gamemode {
    /// A player starts out in survival mode.
    fn default() -> (mode: Gamemode)
        ensures
            mode == Gamemode::Survival,
    {
        Gamemode::Survival
    }
}

/// The phase of a dig that an event reports.
#[derive(Clone, Copy, Debug, PartialEq, Eq, Structural)]
pub enum DigPhase {
    /// The player began to dig.
    Start,
    /// The player dug to the end.
    Stop,
}

/// A player digs at a cell.
#[derive(Clone, Copy, Debug, PartialEq, Eq, Structural)]
pub struct DigEvent {
    pub position: Position,
    pub phase: DigPhase,
}

/// A dig event together with the mode of the player who digs; `None`
/// stands for a player who could not be found.
#[derive(Clone, Copy, Debug, PartialEq, Eq, Structural)]
pub struct Dig {
    pub mode: Option<Gamemode>,
    pub event: DigEvent,
}

/// A player strikes a face of a cell with what they hold.
#[derive(Clone, Copy, Debug, PartialEq, Eq, Structural)]
pub struct InteractEvent {
    pub position: Position,
    pub face: Face,
    pub strike: Strike,
}

/// What the dispatcher reads of the player who acts, besides the
/// inventory.
#[derive(Clone, Copy, Debug, PartialEq, Eq, Structural)]
pub struct Actor {
    pub mode: Gamemode,
    /// The slot of the inventory whose stack the player holds.
    pub held_slot: u16,
    /// The look angle in whole degrees, rounded down.
    pub yaw: i32,
}

/// What became of an interact event.
#[derive(Clone, Copy, Debug, PartialEq, Eq, Structural)]
pub enum Outcome {
    /// The player holds nothing.
    EmptyHand,
    /// The held item is not one that can be placed as a block.
    NotPlaceable,
    /// The face struck looks out of the grid.
    OffGrid,
    /// The block was placed at the position, with these cells.
    Placed(Position, Placement),
}

/// Whether a dig by a player in `mode` removes the block in `phase`: in
/// creative mode as soon as the dig starts, in survival mode when it has
/// come to its end, and never in another mode or for a player who is not
/// there any more.
pub open spec fn removes(mode: Option<Gamemode>, phase: DigPhase) -> bool {
    ||| mode == Some(Gamemode::Creative) && phase == DigPhase::Start
    ||| mode == Some(Gamemode::Survival) && phase == DigPhase::Stop
}

/// The cells after a dig event.
pub open spec fn dug(cells: Map<(int, int, int), int>, mode: Option<Gamemode>, event: DigEvent) -> Map<
    (int, int, int),
    int,
> {
    if removes(mode, event.phase) {
        written(cells, event.position.key(), air())
    } else {
        cells
    }
}

/// The cells after a batch of dig events, acted on in the order in which
/// they came.
pub open spec fn dug_all(cells: Map<(int, int, int), int>, digs: Seq<Dig>) -> Map<
    (int, int, int),
    int,
>
    decreases digs.len(),
{
    if digs.len() == 0 {
        cells
    } else {
        dug(dug_all(cells, digs.drop_last()), digs.last().mode, digs.last().event)
    }
}

/// The cell that an interact event places into: the one that the face
/// struck looks at.
pub open spec fn target_of(event: InteractEvent) -> (int, int, int) {
    step(event.position.key(), event.face)
}

/// The kind of block that an interact event places, or `None` where it
/// places nothing: the held slot is empty, the held item has no block, or
/// the target is off the grid.
pub open spec fn placeable(slots: Seq<Option<(int, int)>>, actor: Actor, event: InteractEvent) -> Option<
    int,
> {
    match held(slots, actor.held_slot as int) {
        Some((item, _)) => if in_grid(target_of(event)) {
            item_block(item)
        } else {
            None
        },
        None => None,
    }
}

/// The slots after an interact event: where a block is placed, and the
/// player is not in creative mode, the held stack has one item less.
pub open spec fn slots_after(slots: Seq<Option<(int, int)>>, actor: Actor, event: InteractEvent) -> Seq<
    Option<(int, int)>,
> {
    if placeable(slots, actor, event).is_some() && actor.mode != Gamemode::Creative {
        taken_one(slots, actor.held_slot as int)
    } else {
        slots
    }
}

/// The cells that an interact event writes, where it places a block.
pub open spec fn shape_of(
    cells: Map<(int, int, int), int>,
    slots: Seq<Option<(int, int)>>,
    actor: Actor,
    event: InteractEvent,
) -> (int, Option<int>)
    recommends
        placeable(slots, actor, event).is_some(),
{
    resolved(
        placeable(slots, actor, event).unwrap(),
        event.face,
        actor.yaw as int,
        event.strike,
        cells,
        target_of(event),
    )
}

/// The cells after an interact event.
pub open spec fn cells_after(
    cells: Map<(int, int, int), int>,
    slots: Seq<Option<(int, int)>>,
    actor: Actor,
    event: InteractEvent,
) -> Map<(int, int, int), int> {
    if placeable(slots, actor, event).is_some() {
        placed(cells, target_of(event), shape_of(cells, slots, actor, event))
    } else {
        cells
    }
}

/// Acts on a dig event of a player in `mode`; `None` stands for a player
/// who could not be found. Says whether the cell was to be emptied.
pub fn remove_block(layer: &mut ChunkLayer, mode: Option<Gamemode>, event: &DigEvent) -> (removed:
    bool)
    ensures
        removed == removes(mode, event.phase),
        loaded_cells(*final(layer)) == dug(loaded_cells(*old(layer)), mode, *event),
{
    let removed = match mode {
        Some(Gamemode::Creative) => event.phase == DigPhase::Start,
        Some(Gamemode::Survival) => event.phase == DigPhase::Stop,
        _ => false,
    };
    if removed {
        write_cell(layer, event.position, CellState::empty());
    }
    removed
}

/// Acts on a batch of dig events in the order in which they came.
pub fn remove_blocks(layer: &mut ChunkLayer, digs: &Vec<Dig>)
    ensures
        loaded_cells(*final(layer)) == dug_all(loaded_cells(*old(layer)), digs@),
{
    let mut i: usize = 0;
    assert(digs@.take(0) =~= Seq::<Dig>::empty());
    while i < digs.len()
        invariant
            i <= digs.len(),
            loaded_cells(*layer) == dug_all(loaded_cells(*old(layer)), digs@.take(i as int)),
        decreases digs.len() - i,
    {
        assert(digs@.take(i + 1).drop_last() =~= digs@.take(i as int));
        let dig = &digs[i];
        remove_block(layer, dig.mode, &dig.event);
        i += 1;
    }
    assert(digs@.take(i as int) =~= digs@);
}

/// Acts on an interact event of the player `actor` with the inventory
/// `inventory`.
///
/// The event is passed over where the held slot is empty, where the held
/// item has no block, and where the face struck looks out of the grid.
/// Otherwise the block takes its shape from the face, the look angle, the
/// strike and the cell beside the target, the shape is written, and, but
/// in creative mode, one item leaves the held stack. The cell at the
/// target and, for a block two cells tall, the cell above it then hold
/// blocks of the kind of the held item, where these cells exist.
pub fn place_block(
    layer: &mut ChunkLayer,
    inventory: &mut Inventory,
    actor: &Actor,
    event: &InteractEvent,
) -> (outcome: Outcome)
    ensures
        loaded_cells(*final(layer)) == cells_after(
            loaded_cells(*old(layer)),
            inventory_slots(*old(inventory)),
            *actor,
            *event,
        ),
        inventory_slots(*final(inventory)) == slots_after(
            inventory_slots(*old(inventory)),
            *actor,
            *event,
        ),
        outcome is EmptyHand <==> held(inventory_slots(*old(inventory)), actor.held_slot as int)
            is None,
        outcome is OffGrid <==> held(inventory_slots(*old(inventory)), actor.held_slot as int)
            is Some && !in_grid(target_of(*event)),
        outcome matches Outcome::Placed(target, shape) ==> {
            &&& placeable(inventory_slots(*old(inventory)), *actor, *event).is_some()
            &&& target.key() == target_of(*event)
            &&& shape@ == shape_of(
                loaded_cells(*old(layer)),
                inventory_slots(*old(inventory)),
                *actor,
                *event,
            )
        },
        outcome is Placed <==> placeable(inventory_slots(*old(inventory)), *actor, *event)
            is Some,
        placeable(inventory_slots(*old(inventory)), *actor, *event) matches Some(kind) ==> (
        outcome matches Outcome::Placed(_, shape) && state_kind(shape.lower@) == kind && (
        shape.upper matches Some(upper) ==> state_kind(upper@) == kind)),
        placeable(inventory_slots(*old(inventory)), *actor, *event) matches Some(kind) ==> (
        loaded_cells(*old(layer)).contains_key(target_of(*event)) ==> state_kind(
            loaded_cells(*final(layer))[target_of(*event)],
        ) == kind),
        placeable(inventory_slots(*old(inventory)), *actor, *event) matches Some(kind) ==> (
        shape_of(
            loaded_cells(*old(layer)),
            inventory_slots(*old(inventory)),
            *actor,
            *event,
        ).1 is Some && in_grid(step(target_of(*event), Face::Up)) && loaded_cells(
            *old(layer),
        ).contains_key(step(target_of(*event), Face::Up)) ==> state_kind(
            loaded_cells(*final(layer))[step(target_of(*event), Face::Up)],
        ) == kind),
{
    let stack = match stack_in(inventory, actor.held_slot) {
        Some(stack) => stack,
        None => {
            return Outcome::EmptyHand;
        },
    };
    let target = match event.position.offset(event.face) {
        Some(target) => target,
        None => {
            return Outcome::OffGrid;
        },
    };
    let kind = match stack.item.block() {
        Some(kind) => kind,
        None => {
            return Outcome::NotPlaceable;
        },
    };
    if actor.mode != Gamemode::Creative {
        take_one(inventory, actor.held_slot);
    }
    let shape = resolve(layer, kind, event.face, actor.yaw, event.strike, target);
    place(layer, target, shape);
    Outcome::Placed(target, shape)
}

/// An event changes no cell but its own: a dig event the one it digs at,
/// an interact event the one that the face struck looks at and the one
/// above that. No event makes or unmakes a cell, and an interact event
/// changes no slot but the held one and leaves the inventory its size.
pub proof fn events_touch_their_cells_alone(
    cells: Map<(int, int, int), int>,
    slots: Seq<Option<(int, int)>>,
    mode: Option<Gamemode>,
    dig: DigEvent,
    actor: Actor,
    interact: InteractEvent,
    at: (int, int, int),
    slot: int,
)
    ensures
        dug(cells, mode, dig).dom() == cells.dom(),
        at != dig.position.key() && cells.contains_key(at) ==> dug(cells, mode, dig)[at]
            == cells[at],
        cells_after(cells, slots, actor, interact).dom() == cells.dom(),
        at != target_of(interact) && at != step(target_of(interact), Face::Up)
            && cells.contains_key(at) ==> cells_after(cells, slots, actor, interact)[at]
            == cells[at],
        slots_after(slots, actor, interact).len() == slots.len(),
        0 <= slot < slots.len() && slot != actor.held_slot ==> slots_after(
            slots,
            actor,
            interact,
        )[slot] == slots[slot],
{
    assert(dug(cells, mode, dig).dom() =~= cells.dom());
    assert(cells_after(cells, slots, actor, interact).dom() =~= cells.dom());
}

/// To empty a cell that is empty changes nothing, whoever digs and in
/// whatever phase.
pub proof fn digging_air_changes_nothing(
    cells: Map<(int, int, int), int>,
    mode: Option<Gamemode>,
    event: DigEvent,
)
    requires
        cells.contains_key(event.position.key()) ==> cells[event.position.key()] == air(),
    ensures
        dug(cells, mode, event) == cells,
{
    assert(dug(cells, mode, event) =~= cells);
}

/// A second dig at the same cell by the same player in the same phase
/// changes nothing.
pub proof fn digging_twice_is_digging_once(
    cells: Map<(int, int, int), int>,
    mode: Option<Gamemode>,
    event: DigEvent,
)
    ensures
        dug(dug(cells, mode, event), mode, event) == dug(cells, mode, event),
{
    assert(dug(dug(cells, mode, event), mode, event) =~= dug(cells, mode, event));
}

/// With nothing in the held slot an interact event changes neither the
/// world nor the inventory.
pub proof fn empty_hand_places_nothing(
    cells: Map<(int, int, int), int>,
    slots: Seq<Option<(int, int)>>,
    actor: Actor,
    event: InteractEvent,
)
    requires
        held(slots, actor.held_slot as int) is None,
    ensures
        cells_after(cells, slots, actor, event) == cells,
        slots_after(slots, actor, event) == slots,
{
}

/// Once an interact event has taken the last item of the held stack, the
/// next interact event of the same player changes nothing, whatever cell
/// and face it strikes.
pub proof fn last_item_ends_placing(
    cells: Map<(int, int, int), int>,
    slots: Seq<Option<(int, int)>>,
    actor: Actor,
    first: InteractEvent,
    next: InteractEvent,
)
    requires
        actor.mode != Gamemode::Creative,
        placeable(slots, actor, first).is_some(),
        held(slots, actor.held_slot as int) matches Some((_, count)) && count <= 1,
    ensures
        held(slots_after(slots, actor, first), actor.held_slot as int) is None,
        cells_after(
            cells_after(cells, slots, actor, first),
            slots_after(slots, actor, first),
            actor,
            next,
        ) == cells_after(cells, slots, actor, first),
        slots_after(slots_after(slots, actor, first), actor, next) == slots_after(
            slots,
            actor,
            first,
        ),
{
}

} // verus!
