//! Running a script against a world, an inventory and a player.
//!
//! A `set` statement changes the player or the inventory, an `interact`
//! statement is handed to the dispatcher as one interact event with a
//! strike at the middle of the face, and an `assert` statement compares.
//! Statements run in the order of the script; the first one that fails
//! ends the run.

use vstd::prelude::*;
use valence::inventory::Inventory;
use valence::ChunkLayer;
use crate::dispatch::{
    cells_after,
    place_block,
    placeable,
    shape_of,
    slots_after,
    target_of,
    Actor,
    InteractEvent,
};
use crate::inventory::{
    inventory_slots,
    put,
    put_stack,
    slot_kept,
    slot_view,
    slots_len,
    stack_in,
    Stack,
};
use crate::registry::{air, item_named, kind_named, state_kind, BlockKindId, CellState, ItemId};
use crate::script::{
    line_views,
    parse,
    spec_parse,
    statements,
    Assert,
    AssertView,
    BlockView,
    Interact,
    Line,
    LineView,
    ParseError,
    Setting,
    SettingView,
};
use crate::shape::Strike;
use crate::text::{pieces, Separator};
use crate::world::{loaded_cells, read_cell, Position};

verus! {

/// Why a statement failed.
#[allow(inconsistent_fields)]
#[derive(Clone, Copy, Debug, PartialEq, Eq)]
pub enum EvalError {
    /// The statement names an item that does not exist.
    UnknownItem,
    /// The statement names a kind of block that does not exist.
    UnknownBlock,
    /// The statement names a slot that the inventory does not have.
    NoSuchSlot,
    /// The cell holds a block of another kind than the one asserted.
    WrongBlock { at: Position, expected: BlockKindId, actual: BlockKindId },
    /// The slot holds something else than what was asserted.
    WrongStack { slot: u16, expected: Option<Stack>, actual: Option<Stack> },
}

/// Why a script did not run to its end.
#[derive(Clone, Copy, Debug, PartialEq, Eq)]
pub enum ScriptError {
    /// A line is no statement; nothing was run.
    Parse(ParseError),
    /// The statement with this index, counted from 0, failed; the
    /// statements before it were run.
    Failed { statement: usize, error: EvalError },
}

/// An `EvalError` with ids.
#[allow(inconsistent_fields)]
pub enum EvalErrorView {
    UnknownItem,
    UnknownBlock,
    NoSuchSlot,
    WrongBlock { at: Position, expected: int, actual: int },
    WrongStack { slot: u16, expected: Option<(int, int)>, actual: Option<(int, int)> },
}

/// A `ScriptError` with ids.
pub enum ScriptErrorView {
    Parse(ParseError),
    Failed { statement: int, error: EvalErrorView },
}

impl View for EvalError {
    type V = EvalErrorView;

    open spec fn view(&self) -> EvalErrorView {
        match self {
            EvalError::UnknownItem => EvalErrorView::UnknownItem,
            EvalError::UnknownBlock => EvalErrorView::UnknownBlock,
            EvalError::NoSuchSlot => EvalErrorView::NoSuchSlot,
            EvalError::WrongBlock { at, expected, actual } => EvalErrorView::WrongBlock {
                at: *at,
                expected: expected@,
                actual: actual@,
            },
            EvalError::WrongStack { slot, expected, actual } => EvalErrorView::WrongStack {
                slot: *slot,
                expected: slot_view(*expected),
                actual: slot_view(*actual),
            },
        }
    }
}

impl View for ScriptError {
    type V = ScriptErrorView;

    open spec fn view(&self) -> ScriptErrorView {
        match self {
            ScriptError::Parse(error) => ScriptErrorView::Parse(*error),
            ScriptError::Failed { statement, error } => ScriptErrorView::Failed {
                statement: *statement as int,
                error: error@,
            },
        }
    }
}

/// What a script acts on: the cells of the world, the slots of the
/// inventory and the player.
pub struct World {
    pub cells: Map<(int, int, int), int>,
    pub slots: Seq<Option<(int, int)>>,
    pub actor: Actor,
}

/// The world that a layer, an inventory and a player make up.
pub open spec fn world_of(layer: ChunkLayer, inventory: Inventory, actor: Actor) -> World {
    World { cells: loaded_cells(layer), slots: inventory_slots(inventory), actor }
}

/// The event that an `interact` statement stands for: a strike at the
/// middle of the face.
pub open spec fn event_of(interact: Interact) -> InteractEvent {
    InteractEvent { position: interact.position, face: interact.face, strike: Strike::neutral() }
}

/// The state of the cell at `at`; where no cell exists, that of an empty
/// cell.
pub open spec fn state_at(cells: Map<(int, int, int), int>, at: (int, int, int)) -> int {
    if cells.contains_key(at) {
        cells[at]
    } else {
        air()
    }
}

/// The stack that a statement writes as `count` of `item`: none for a
/// count below one.
pub open spec fn stack_of(item: int, count: i8) -> Option<(int, int)> {
    if count >= 1 {
        Some((item, count as int))
    } else {
        None
    }
}

/// The slots and the player after a `set` statement: the player in the
/// mode, the player with the held slot, or the slot with the stack. A
/// count below one leaves the slot empty.
pub open spec fn set(slots: Seq<Option<(int, int)>>, actor: Actor, setting: SettingView) -> Result<
    (Seq<Option<(int, int)>>, Actor),
    EvalErrorView,
> {
    match setting {
        SettingView::Gamemode(mode) => Ok((slots, Actor { mode, ..actor })),
        SettingView::HeldItem(slot) => Ok((slots, Actor { held_slot: slot, ..actor })),
        SettingView::Inventory(content) => match item_named(content.item) {
            None => Err(EvalErrorView::UnknownItem),
            Some(item) => if content.slot >= slots.len() {
                Err(EvalErrorView::NoSuchSlot)
            } else {
                Ok((put(slots, content.slot as int, stack_of(item, content.count)), actor))
            },
        },
    }
}

/// What an `assert` statement finds. The cell at a position is compared by
/// the kind of its block, and a cell that does not exist counts as empty.
/// A slot is compared by item and count; a count below one asserts an
/// empty slot.
pub open spec fn check(
    cells: Map<(int, int, int), int>,
    slots: Seq<Option<(int, int)>>,
    assert: AssertView,
) -> Result<(), EvalErrorView> {
    match assert {
        AssertView::Position(at, block) => match kind_named(block.id) {
            None => Err(EvalErrorView::UnknownBlock),
            Some(expected) => {
                let actual = state_kind(state_at(cells, at.key()));
                if actual == expected {
                    Ok(())
                } else {
                    Err(EvalErrorView::WrongBlock { at, expected, actual })
                }
            },
        },
        AssertView::Inventory(slot, content) => if slot >= slots.len() {
            Err(EvalErrorView::NoSuchSlot)
        } else {
            let actual = slots[slot as int];
            match content {
                None => if actual is None {
                    Ok(())
                } else {
                    Err(EvalErrorView::WrongStack { slot, expected: None, actual })
                },
                Some((name, count)) => match item_named(name) {
                    None => Err(EvalErrorView::UnknownItem),
                    Some(item) => {
                        let expected = stack_of(item, count);
                        if actual == expected {
                            Ok(())
                        } else {
                            Err(EvalErrorView::WrongStack { slot, expected, actual })
                        }
                    },
                },
            }
        },
    }
}

/// The world after an `interact` statement.
pub open spec fn interacted(world: World, interact: Interact) -> World {
    World {
        cells: cells_after(world.cells, world.slots, world.actor, event_of(interact)),
        slots: slots_after(world.slots, world.actor, event_of(interact)),
        actor: world.actor,
    }
}

/// The world after a statement, or why the statement failed.
pub open spec fn after(world: World, line: LineView) -> Result<World, EvalErrorView> {
    match line {
        LineView::Setting(setting) => match set(world.slots, world.actor, setting) {
            Ok((slots, actor)) => Ok(World { cells: world.cells, slots, actor }),
            Err(e) => Err(e),
        },
        LineView::Interact(interact) => Ok(interacted(world, interact)),
        LineView::Assert(assert) => match check(world.cells, world.slots, assert) {
            Ok(_) => Ok(world),
            Err(e) => Err(e),
        },
    }
}

/// The world after the statements of a script, run in order up to the
/// first that fails, and that statement's index and error where one
/// failed.
pub open spec fn run(world: World, lines: Seq<LineView>) -> (World, Option<(int, EvalErrorView)>)
    decreases lines.len(),
{
    if lines.len() == 0 {
        (world, None)
    } else {
        let (before, failed) = run(world, lines.drop_last());
        match failed {
            Some(failure) => (before, Some(failure)),
            None => match after(before, lines.last()) {
                Ok(next) => (next, None),
                Err(e) => (before, Some((lines.len() - 1, e))),
            },
        }
    }
}

/// What a script does to a world: nothing where a line is no statement,
/// else what its statements do.
pub open spec fn outcome(world: World, input: Seq<char>) -> (World, Option<ScriptErrorView>) {
    match spec_parse(input) {
        Err(e) => (world, Some(ScriptErrorView::Parse(e))),
        Ok(lines) => {
            let (end, failed) = run(world, lines);
            (
                end,
                match failed {
                    Some((statement, error)) => Some(ScriptErrorView::Failed { statement, error }),
                    None => None,
                },
            )
        },
    }
}

/// The stack that a statement writes as `count` of `item`.
fn stack_for(item: ItemId, count: i8) -> (stack: Option<Stack>)
    ensures
        slot_view(stack) == stack_of(item@, count),
        slot_kept(stack) == stack_of(item@, count),
{
    if count >= 1 {
        Some(Stack { item, count: count as u8 })
    } else {
        None
    }
}

/// Carries out a `set` statement.
pub fn eval_set(inventory: &mut Inventory, actor: &mut Actor, setting: &Setting) -> (done: Result<
    (),
    EvalError,
>)
    ensures
        match set(inventory_slots(*old(inventory)), *old(actor), setting@) {
            Ok((slots, player)) => done is Ok && inventory_slots(*final(inventory)) == slots
                && *final(actor) == player,
            Err(e) => done matches Err(error) && error@ == e && inventory_slots(*final(inventory))
                == inventory_slots(*old(inventory)) && *final(actor) == *old(actor),
        },
{
    match setting {
        Setting::Gamemode(mode) => {
            actor.mode = *mode;
            Ok(())
        },
        Setting::HeldItem(slot) => {
            actor.held_slot = *slot;
            Ok(())
        },
        Setting::Inventory(content) => {
            let item = match ItemId::named(content.item.as_str()) {
                Some(item) => item,
                None => {
                    return Err(EvalError::UnknownItem);
                },
            };
            if put_stack(inventory, content.slot, stack_for(item, content.count)) {
                Ok(())
            } else {
                Err(EvalError::NoSuchSlot)
            }
        },
    }
}

/// Carries out an `assert` statement.
pub fn eval_assert(layer: &ChunkLayer, inventory: &Inventory, assert: &Assert) -> (found: Result<
    (),
    EvalError,
>)
    ensures
        match check(loaded_cells(*layer), inventory_slots(*inventory), assert@) {
            Ok(_) => found is Ok,
            Err(e) => found matches Err(error) && error@ == e,
        },
{
    match assert {
        Assert::Position(at, block) => {
            let expected = match BlockKindId::named(block.id.as_str()) {
                Some(kind) => kind,
                None => {
                    return Err(EvalError::UnknownBlock);
                },
            };
            let state = match read_cell(layer, *at) {
                Some(state) => state,
                None => CellState::empty(),
            };
            let actual = state.kind();
            if actual.raw() == expected.raw() {
                Ok(())
            } else {
                Err(EvalError::WrongBlock { at: *at, expected, actual })
            }
        },
        Assert::Inventory(slot, content) => {
            if *slot >= slots_len(inventory) {
                return Err(EvalError::NoSuchSlot);
            }
            let actual = stack_in(inventory, *slot);
            match content {
                None => match actual {
                    None => Ok(()),
                    Some(_) => Err(EvalError::WrongStack { slot: *slot, expected: None, actual }),
                },
                Some((name, count)) => {
                    let item = match ItemId::named(name.as_str()) {
                        Some(item) => item,
                        None => {
                            return Err(EvalError::UnknownItem);
                        },
                    };
                    let expected = stack_for(item, *count);
                    let same = match (actual, expected) {
                        (Some(found), Some(wanted)) => found.item.raw() == wanted.item.raw()
                            && found.count == wanted.count,
                        (None, None) => true,
                        _ => false,
                    };
                    if same {
                        Ok(())
                    } else {
                        Err(EvalError::WrongStack { slot: *slot, expected, actual })
                    }
                },
            }
        },
    }
}

/// Carries out an `interact` statement: one interact event, struck at the
/// middle of the face. Where it places a block into a cell that exists,
/// the assertion of a block of that kind at that cell holds afterwards.
pub fn eval_interact(
    layer: &mut ChunkLayer,
    inventory: &mut Inventory,
    actor: &Actor,
    interact: &Interact,
)
    ensures
        world_of(*final(layer), *final(inventory), *actor) == interacted(
            world_of(*old(layer), *old(inventory), *actor),
            *interact,
        ),
        forall|target: Position, name: Seq<char>|
            target.key() == target_of(event_of(*interact)) && loaded_cells(
                *old(layer),
            ).contains_key(target.key()) && placeable(
                inventory_slots(*old(inventory)),
                *actor,
                event_of(*interact),
            ) is Some && kind_named(name) == placeable(
                inventory_slots(*old(inventory)),
                *actor,
                event_of(*interact),
            ) ==> #[trigger] check(
                loaded_cells(*final(layer)),
                inventory_slots(*final(inventory)),
                AssertView::Position(target, BlockView { id: name }),
            ) is Ok,
{
    let event = InteractEvent {
        position: interact.position,
        face: interact.face,
        strike: Strike::neutral(),
    };
    let _ = place_block(layer, inventory, actor, &event);
}

/// Carries out one statement. A statement that fails changes nothing.
pub fn eval_line(
    layer: &mut ChunkLayer,
    inventory: &mut Inventory,
    actor: &mut Actor,
    line: &Line,
) -> (done: Result<(), EvalError>)
    ensures
        match after(world_of(*old(layer), *old(inventory), *old(actor)), line@) {
            Ok(next) => done is Ok && world_of(*final(layer), *final(inventory), *final(actor))
                == next,
            Err(e) => done matches Err(error) && error@ == e && world_of(
                *final(layer),
                *final(inventory),
                *final(actor),
            ) == world_of(*old(layer), *old(inventory), *old(actor)),
        },
{
    match line {
        Line::Setting(setting) => eval_set(inventory, actor, setting),
        Line::Assert(assert) => eval_assert(layer, inventory, assert),
        Line::Interact(interact) => {
            eval_interact(layer, inventory, actor, interact);
            Ok(())
        },
    }
}

/// A failure among the first statements is the failure of the whole run.
proof fn lemma_first_failure_stays(world: World, lines: Seq<LineView>, n: int)
    requires
        0 <= n <= lines.len(),
        run(world, lines.take(n)).1 is Some,
    ensures
        run(world, lines) == run(world, lines.take(n)),
    decreases lines.len() - n,
{
    if n < lines.len() {
        assert(lines.take(n + 1).drop_last() =~= lines.take(n));
        lemma_first_failure_stays(world, lines, n + 1);
    } else {
        assert(lines.take(n) =~= lines);
    }
}

/// Runs statements in order up to the first that fails.
pub fn eval_lines(
    layer: &mut ChunkLayer,
    inventory: &mut Inventory,
    actor: &mut Actor,
    lines: &Vec<Line>,
) -> (done: Result<(), ScriptError>)
    ensures
        world_of(*final(layer), *final(inventory), *final(actor)) == run(
            world_of(*old(layer), *old(inventory), *old(actor)),
            line_views(lines@),
        ).0,
        match run(
            world_of(*old(layer), *old(inventory), *old(actor)),
            line_views(lines@),
        ).1 {
            None => done is Ok,
            Some((statement, error)) => done matches Err(e) && e@ == (ScriptErrorView::Failed {
                statement,
                error,
            }),
        },
{
    let ghost start = world_of(*layer, *inventory, *actor);
    let ghost all = line_views(lines@);
    let mut i: usize = 0;
    assert(all.take(0) =~= Seq::<LineView>::empty());
    while i < lines.len()
        invariant
            i <= lines.len(),
            all == line_views(lines@),
            start == world_of(*old(layer), *old(inventory), *old(actor)),
            run(start, all.take(i as int)) == (world_of(*layer, *inventory, *actor), None::<
                (int, EvalErrorView),
            >),
        decreases lines.len() - i,
    {
        proof {
            assert(all.take(i + 1).drop_last() =~= all.take(i as int));
            assert(all.take(i + 1).last() == lines@[i as int]@);
        }
        match eval_line(layer, inventory, actor, &lines[i]) {
            Ok(_) => {},
            Err(error) => {
                proof {
                    assert(run(start, all.take(i + 1)).1 == Some((i as int, error@)));
                    lemma_first_failure_stays(start, all, i + 1);
                }
                return Err(ScriptError::Failed { statement: i, error });
            },
        }
        i += 1;
    }
    assert(all.take(i as int) =~= all);
    Ok(())
}

/// Reads a script and runs it. The whole script is read first: where a
/// line is no statement nothing is run.
pub fn eval_script(
    layer: &mut ChunkLayer,
    inventory: &mut Inventory,
    actor: &mut Actor,
    input: &str,
) -> (done: Result<(), ScriptError>)
    ensures
        world_of(*final(layer), *final(inventory), *final(actor)) == outcome(
            world_of(*old(layer), *old(inventory), *old(actor)),
            input@,
        ).0,
        match outcome(world_of(*old(layer), *old(inventory), *old(actor)), input@).1 {
            None => done is Ok,
            Some(e) => done matches Err(error) && error@ == e,
        },
{
    match parse(input) {
        Err(e) => Err(ScriptError::Parse(e)),
        Ok(lines) => eval_lines(layer, inventory, actor, &lines),
    }
}

/// A block that was placed is found: after an `interact` statement that
/// places a block whose kind is called `name`, the statement that asserts
/// a block of that name at the cell that the face struck looks at holds,
/// whatever the face and the look angle.
pub proof fn placed_block_is_found(world: World, interact: Interact, target: Position, name: Seq<char>)
    requires
        placeable(world.slots, world.actor, event_of(interact)) is Some,
        target.key() == target_of(event_of(interact)),
        world.cells.contains_key(target.key()),
        kind_named(name) == Some(
            state_kind(
                shape_of(world.cells, world.slots, world.actor, event_of(interact)).0,
            ),
        ),
    ensures
        check(
            interacted(world, interact).cells,
            interacted(world, interact).slots,
            AssertView::Position(target, BlockView { id: name }),
        ) is Ok,
{
}

/// Whether the items and blocks that a statement names exist.
pub open spec fn names_exist(line: LineView) -> bool {
    match line {
        LineView::Setting(SettingView::Inventory(content)) => item_named(content.item) is Some,
        LineView::Assert(AssertView::Position(_, block)) => kind_named(block.id) is Some,
        LineView::Assert(AssertView::Inventory(_, Some((item, _)))) => item_named(item) is Some,
        _ => true,
    }
}

/// Whether an error says that a name is unknown.
pub open spec fn is_unknown_name(error: EvalErrorView) -> bool {
    error is UnknownItem || error is UnknownBlock
}

/// The statements read from lines name only what exists.
proof fn lemma_read_names_exist(lines: Seq<Seq<char>>)
    ensures
        statements(lines) matches Ok(read) ==> forall|i: int|
            0 <= i < read.len() ==> names_exist(#[trigger] read[i]),
    decreases lines.len(),
{
    if lines.len() > 0 {
        lemma_read_names_exist(lines.drop_last());
    }
}

/// Statements that name only what exists fail on no name.
proof fn lemma_known_names_never_fail(world: World, lines: Seq<LineView>)
    requires
        forall|i: int| 0 <= i < lines.len() ==> names_exist(#[trigger] lines[i]),
    ensures
        run(world, lines).1 matches Some((_, error)) ==> !is_unknown_name(error),
    decreases lines.len(),
{
    if lines.len() > 0 {
        let before = lines.drop_last();
        assert forall|i: int| 0 <= i < before.len() implies names_exist(#[trigger] before[i]) by {
            assert(before[i] == lines[i]);
        }
        lemma_known_names_never_fail(world, before);
        assert(names_exist(lines[lines.len() - 1]));
    }
}

/// A script is read as a whole before any of it runs, and its names are
/// looked up then: a script that names an item or a block that does not
/// exist changes nothing, and no statement of a script that was read fails
/// on a name.
pub proof fn names_fail_before_anything_runs(world: World, input: Seq<char>)
    ensures
        spec_parse(input) is Err ==> outcome(world, input).0 == world,
        outcome(world, input).1 matches Some(ScriptErrorView::Failed { error, .. })
            ==> !is_unknown_name(error),
{
    let lines = pieces(input, Separator::LineFeed);
    lemma_read_names_exist(lines);
    if let Ok(read) = statements(lines) {
        lemma_known_names_never_fail(world, read);
    }
}

/// An `assert` statement changes nothing, and one that holds once holds
/// again.
pub proof fn asserting_changes_nothing(world: World, assert: AssertView)
    ensures
        after(world, LineView::Assert(assert)) matches Ok(next) ==> next == world,
{
}

} // verus!
