//! Items, block kinds and block states of the game, as the engine's tables
//! define them.
//!
//! The tables are large and belong to the engine. This module asks them and
//! gives each answer a name that contracts can speak of. Ids are the
//! engine's raw ids.

use vstd::prelude::*;
use valence::block::{BlockKind, PropName, PropValue};
use valence::{BlockState, ItemKind};
use crate::property::{Prop, Property, Value};

verus! {

/// Whether `raw` is the id of an item kind.
pub uninterp spec fn is_item(raw: int) -> bool;

/// The id of the item kind with the snake-case name `name`, if there is one.
pub uninterp spec fn item_named(name: Seq<char>) -> Option<int>;

/// The id of the block kind that placing item `item` gives, if it gives one.
pub uninterp spec fn item_block(item: int) -> Option<int>;

/// Whether `raw` is the id of a block kind.
pub uninterp spec fn is_block_kind(raw: int) -> bool;

/// The id of the block kind with the snake-case name `name`, if there is one.
pub uninterp spec fn kind_named(name: Seq<char>) -> Option<int>;

/// Whether block kind `kind` has the property `prop`.
pub uninterp spec fn kind_declares(kind: int, prop: Prop) -> bool;

/// The id of the state in which a block of kind `kind` starts out.
pub uninterp spec fn kind_default(kind: int) -> int;

/// Whether `raw` is the id of a block state.
pub uninterp spec fn is_state(raw: int) -> bool;

/// The id of the kind of the block in state `state`.
pub uninterp spec fn state_kind(state: int) -> int;

/// The id of the state that differs from `state` in the property `prop`,
/// which has the value `value`; `state` itself where the kind of its block
/// has no such property or the property no such value.
pub uninterp spec fn state_with(state: int, prop: Prop, value: Value) -> int;

/// The id of the state that differs from `state` in one property, which
/// has the value that `property` gives.
pub open spec fn with_property(state: int, property: Property) -> int {
    state_with(state, property.prop(), property.value())
}

/// The id of the state of an empty cell.
pub open spec fn air() -> int {
    0
}

/// The kind of an item.
#[derive(Clone, Copy, Debug, PartialEq, Eq, Structural)]
pub struct ItemId {
    pub(crate) raw: u16,
}

/// The kind of a block.
#[derive(Clone, Copy, Debug, PartialEq, Eq, Structural)]
pub struct BlockKindId {
    pub(crate) raw: u16,
}

/// The state of a cell: the kind of its block together with a value for
/// each property of that kind.
#[derive(Clone, Copy, Debug, PartialEq, Eq, Structural)]
pub struct CellState {
    pub(crate) raw: u16,
}

impl View for ItemId {
    type V = int;

    closed spec fn view(&self) -> int {
        self.raw as int
    }
}

impl View for BlockKindId {
    type V = int;

    closed spec fn view(&self) -> int {
        self.raw as int
    }
}

impl View for CellState {
    type V = int;

    closed spec fn view(&self) -> int {
        self.raw as int
    }
}

/// Trusted: `ItemKind::from_raw` of valence returns `Some` exactly for the
/// ids of item kinds, and `to_raw` gives the id back.
#[verifier::external_body]
fn item_of_raw(raw: u16) -> (item: Option<ItemId>)
    ensures
        item.is_some() == is_item(raw as int),
        item matches Some(i) ==> i@ == raw,
{
    ItemKind::from_raw(raw).map(|k| ItemId { raw: k.to_raw() })
}

/// Trusted: `ItemKind::from_str` of valence looks `name` up among the
/// snake-case names of the item kinds; the result depends on `name` alone.
#[verifier::external_body]
fn item_of_name(name: &str) -> (item: Option<ItemId>)
    ensures
        item.is_some() == item_named(name@).is_some(),
        item matches Some(i) ==> item_named(name@) == Some(i@),
{
    ItemKind::from_str(name).map(|k| ItemId { raw: k.to_raw() })
}

/// Trusted: `BlockKind::from_item_kind` of valence looks the item up in the
/// table of blocks; the result depends on the item alone.
#[verifier::external_body]
fn block_of_item(item: ItemId) -> (kind: Option<BlockKindId>)
    requires
        item.wf(),
    ensures
        kind.is_some() == item_block(item@).is_some(),
        kind matches Some(k) ==> item_block(item@) == Some(k@),
{
    let found = BlockKind::from_item_kind(ItemKind::from_raw(item.raw).unwrap());
    found.map(|k| BlockKindId { raw: k.to_raw() })
}

/// Trusted: `BlockKind::from_raw` of valence returns `Some` exactly for the
/// ids of block kinds, and `to_raw` gives the id back.
#[verifier::external_body]
fn kind_of_raw(raw: u16) -> (kind: Option<BlockKindId>)
    ensures
        kind.is_some() == is_block_kind(raw as int),
        kind matches Some(k) ==> k@ == raw,
{
    BlockKind::from_raw(raw).map(|k| BlockKindId { raw: k.to_raw() })
}

/// Trusted: `BlockKind::from_str` of valence looks `name` up among the
/// snake-case names of the block kinds; the result depends on `name` alone.
#[verifier::external_body]
fn kind_of_name(name: &str) -> (kind: Option<BlockKindId>)
    ensures
        kind.is_some() == kind_named(name@).is_some(),
        kind matches Some(k) ==> kind_named(name@) == Some(k@),
{
    BlockKind::from_str(name).map(|k| BlockKindId { raw: k.to_raw() })
}

/// Trusted: `BlockKind::props` of valence lists the properties of the
/// kind; the result says whether the property is among them.
#[verifier::external_body]
fn kind_has(kind: BlockKindId, prop: Prop) -> (has: bool)
    requires
        kind.wf(),
    ensures
        has == kind_declares(kind@, prop),
{
    let name = match prop {
        Prop::Axis => PropName::Axis,
        Prop::Facing => PropName::Facing,
        Prop::Half => PropName::Half,
        Prop::Hinge => PropName::Hinge,
    };
    BlockKind::from_raw(kind.raw).unwrap().props().contains(&name)
}

/// Trusted: `BlockState::from_kind` of valence gives the default state of
/// the kind; the result depends on the kind alone, and it is a state of
/// that kind, as `to_kind` tells.
#[verifier::external_body]
fn default_of_kind(kind: BlockKindId) -> (state: CellState)
    requires
        kind.wf(),
    ensures
        state@ == kind_default(kind@),
        state_kind(state@) == kind@,
{
    CellState { raw: BlockState::from_kind(BlockKind::from_raw(kind.raw).unwrap()).to_raw() }
}

/// Trusted: `BlockState::from_raw` of valence returns `Some` exactly for
/// the ids of block states, and `to_raw` gives the id back.
#[verifier::external_body]
fn state_of_raw(raw: u16) -> (state: Option<CellState>)
    ensures
        state.is_some() == is_state(raw as int),
        state matches Some(s) ==> s@ == raw,
{
    BlockState::from_raw(raw).map(|s| CellState { raw: s.to_raw() })
}

/// Trusted: `BlockState::AIR` of valence, the state of an empty cell, has
/// the id 0.
#[verifier::external_body]
fn state_of_air() -> (state: CellState)
    ensures
        state@ == air(),
{
    CellState { raw: BlockState::AIR.to_raw() }
}

/// Trusted: `BlockState::to_kind` of valence gives the kind of the state;
/// the result depends on the state alone.
#[verifier::external_body]
fn kind_of_state(state: CellState) -> (kind: BlockKindId)
    requires
        state.wf(),
    ensures
        kind@ == state_kind(state@),
{
    BlockKindId { raw: BlockState::from_raw(state.raw).unwrap().to_kind().to_raw() }
}

/// Trusted: `BlockState::set` of valence gives the state with one property
/// changed; the result depends on the state, the property and the value
/// alone, and the block stays of its kind.
#[verifier::external_body]
fn state_set(state: CellState, prop: Prop, value: Value) -> (changed: CellState)
    requires
        state.wf(),
    ensures
        changed@ == state_with(state@, prop, value),
        state_kind(changed@) == state_kind(state@),
{
    let name = match prop {
        Prop::Axis => PropName::Axis, Prop::Facing => PropName::Facing,
        Prop::Half => PropName::Half, Prop::Hinge => PropName::Hinge,
    };
    let value = match value {
        Value::X => PropValue::X, Value::Y => PropValue::Y, Value::Z => PropValue::Z,
        Value::North => PropValue::North, Value::South => PropValue::South,
        Value::East => PropValue::East, Value::West => PropValue::West,
        Value::Lower => PropValue::Lower, Value::Upper => PropValue::Upper,
        Value::Left => PropValue::Left, Value::Right => PropValue::Right,
    };
    CellState { raw: BlockState::from_raw(state.raw).unwrap().set(name, value).to_raw() }
}

impl ItemId {
    /// Every value is the id of an item kind.
    #[verifier::type_invariant]
    pub open spec fn wf(self) -> bool {
        is_item(self@)
    }

    /// The id of this item kind.
    pub fn raw(&self) -> (raw: u16)
        ensures
            raw == self@,
    {
        self.raw
    }

    /// The item kind with id `raw`, if there is one.
    pub fn from_raw(raw: u16) -> (item: Option<ItemId>)
        ensures
            item.is_some() == is_item(raw as int),
            item matches Some(i) ==> i@ == raw,
    {
        item_of_raw(raw)
    }

    /// The item kind called `name`, if there is one.
    pub fn named(name: &str) -> (item: Option<ItemId>)
        ensures
            item.is_some() == item_named(name@).is_some(),
            item matches Some(i) ==> item_named(name@) == Some(i@),
    {
        item_of_name(name)
    }

    /// The kind of block that placing this item gives, if it gives one.
    pub fn block(&self) -> (kind: Option<BlockKindId>)
        ensures
            kind.is_some() == item_block(self@).is_some(),
            kind matches Some(k) ==> item_block(self@) == Some(k@),
    {
        proof {
            use_type_invariant(self);
        }
        block_of_item(*self)
    }
}

impl BlockKindId {
    /// Every value is the id of a block kind.
    #[verifier::type_invariant]
    pub open spec fn wf(self) -> bool {
        is_block_kind(self@)
    }

    /// The id of this block kind.
    pub fn raw(&self) -> (raw: u16)
        ensures
            raw == self@,
    {
        self.raw
    }

    /// The block kind with id `raw`, if there is one.
    pub fn from_raw(raw: u16) -> (kind: Option<BlockKindId>)
        ensures
            kind.is_some() == is_block_kind(raw as int),
            kind matches Some(k) ==> k@ == raw,
    {
        kind_of_raw(raw)
    }

    /// The block kind called `name`, if there is one.
    pub fn named(name: &str) -> (kind: Option<BlockKindId>)
        ensures
            kind.is_some() == kind_named(name@).is_some(),
            kind matches Some(k) ==> kind_named(name@) == Some(k@),
    {
        kind_of_name(name)
    }

    /// Whether this kind has the property `prop`.
    pub fn declares(&self, prop: Prop) -> (has: bool)
        ensures
            has == kind_declares(self@, prop),
    {
        proof {
            use_type_invariant(self);
        }
        kind_has(*self, prop)
    }

    /// The state in which a block of this kind starts out.
    pub fn default_state(&self) -> (state: CellState)
        ensures
            state@ == kind_default(self@),
            state_kind(state@) == self@,
    {
        proof {
            use_type_invariant(self);
        }
        default_of_kind(*self)
    }
}

impl CellState {
    /// Every value is the id of a block state.
    #[verifier::type_invariant]
    pub open spec fn wf(self) -> bool {
        is_state(self@)
    }

    /// The id of this state.
    pub fn raw(&self) -> (raw: u16)
        ensures
            raw == self@,
    {
        self.raw
    }

    /// The state with id `raw`, if there is one.
    pub fn from_raw(raw: u16) -> (state: Option<CellState>)
        ensures
            state.is_some() == is_state(raw as int),
            state matches Some(s) ==> s@ == raw,
    {
        state_of_raw(raw)
    }

    /// The state of an empty cell.
    pub fn empty() -> (state: CellState)
        ensures
            state@ == air(),
    {
        state_of_air()
    }

    /// The kind of the block in this state.
    pub fn kind(&self) -> (kind: BlockKindId)
        ensures
            kind@ == state_kind(self@),
    {
        proof {
            use_type_invariant(self);
        }
        kind_of_state(*self)
    }

    /// This state with one property set as `property` says. Only a
    /// property that the kind of the block has can be set; the state is
    /// unchanged where the property has no such value for this kind.
    pub fn with(&self, property: Property) -> (changed: CellState)
        requires
            kind_declares(state_kind(self@), property.prop()),
        ensures
            changed@ == with_property(self@, property),
            state_kind(changed@) == state_kind(self@),
    {
        proof {
            use_type_invariant(self);
        }
        state_set(*self, property.prop(), property.value())
    }

    /// This state with one property set as `property` says, or `None`
    /// where the kind of the block has no such property.
    pub fn try_with(&self, property: Property) -> (changed: Option<CellState>)
        ensures
            changed.is_some() == kind_declares(state_kind(self@), property.prop()),
            changed matches Some(c) ==> c@ == with_property(self@, property) && state_kind(c@)
                == state_kind(self@),
    {
        if self.kind().declares(property.prop()) {
            Some(self.with(property))
        } else {
            None
        }
    }
}

} // verus!
