//! The shape that a block takes when it is placed: one cell or two, each
//! with the state that the face struck, the look angle and the neighbours
//! give it.

use vstd::prelude::*;
use valence::ChunkLayer;
use crate::orientation::{axis_for, facing_for, spec_facing_for, Axis, Face, Facing};
use crate::property::{Half, Hinge, Prop, Property};
use crate::registry::{
    kind_declares,
    kind_default,
    state_kind,
    with_property,
    BlockKindId,
    CellState,
};
use crate::world::{in_grid, loaded_cells, read_cell, step, write_cell, written, Position};

verus! {

/// Where a strike lies along one axis of the face, against the middle of
/// the cell.
#[derive(Clone, Copy, Debug, PartialEq, Eq, Structural)]
pub enum Side {
    /// Below one half.
    Below,
    /// At one half, or nowhere that can be compared with it.
    Middle,
    /// Above one half.
    Above,
}

/// The point of the face that was struck, along each axis of the cell.
#[derive(Clone, Copy, Debug, PartialEq, Eq, Structural)]
pub struct Strike {
    pub x: Side,
    pub y: Side,
    pub z: Side,
}

/// The cells that a placement writes: the state of the cell at the target
/// and, for a block two cells tall, the state of the cell above it.
#[derive(Clone, Copy, Debug, PartialEq, Eq, Structural)]
pub struct Placement {
    pub lower: CellState,
    pub upper: Option<CellState>,
}

impl View for Placement {
    type V = (int, Option<int>);

    open spec fn view(&self) -> (int, Option<int>) {
        (
            self.lower@,
            match self.upper {
                Some(s) => Some(s@),
                None => None,
            },
        )
    }
}

impl Strike {
    /// The strike at the middle of the face along every axis.
    pub open spec fn spec_neutral() -> Strike {
        Strike { x: Side::Middle, y: Side::Middle, z: Side::Middle }
    }

    /// The strike at the middle of the face along every axis.
    #[verifier::when_used_as_spec(spec_neutral)]
    pub fn neutral() -> (strike: Strike)
        ensures
            strike == Strike::spec_neutral(),
    {
        Strike { x: Side::Middle, y: Side::Middle, z: Side::Middle }
    }
}

/// Which of the properties that shape a placement a kind of block has.
#[derive(Clone, Copy, Debug, PartialEq, Eq, Structural)]
pub struct Declared {
    pub axis: bool,
    pub facing: bool,
    pub half: bool,
    pub hinge: bool,
}

/// How a placed block is turned: a value for each property that its kind
/// has, of those that shape a placement.
#[derive(Clone, Copy, Debug, PartialEq, Eq, Structural)]
pub struct Turn {
    pub axis: Option<Axis>,
    pub facing: Option<Facing>,
    /// Whether the block is two cells tall, a lower half and an upper one.
    pub tall: bool,
    pub hinge: Option<Hinge>,
}

/// Whether the strike alone puts the hinge on the right. Facing south or
/// north the strike's x decides, facing east or west its z; south and west
/// take a strike below the middle for the right, north and east one above.
pub open spec fn strike_hinges_right(facing: Facing, strike: Strike) -> bool {
    match facing {
        Facing::South => strike.x == Side::Below,
        Facing::North => strike.x == Side::Above,
        Facing::East => strike.z == Side::Above,
        Facing::West => strike.z == Side::Below,
    }
}

/// The direction, a quarter turn from `facing`, in which a second door
/// would stand beside the first.
pub open spec fn spec_beside(facing: Facing) -> Face {
    match facing {
        Facing::South => Face::East,
        Facing::North => Face::West,
        Facing::East => Face::North,
        Facing::West => Face::South,
    }
}

/// How a block is turned that is placed against `face` by a player who
/// looks along `yaw` and struck the face at `strike`.
///
/// A kind with an axis takes the axis of the face. A kind with a facing
/// takes the facing of the look angle. A kind with a facing and a half is
/// two cells tall. Where it has a hinge as well, the hinge is on the right
/// where the strike says so, and on the right as well where the strike
/// says left but a door stands beside the target, so that two doors side
/// by side open from the middle; it is on the left otherwise.
pub open spec fn spec_turn(
    declared: Declared,
    face: Face,
    yaw: int,
    strike: Strike,
    door_beside: bool,
) -> Turn {
    let tall = declared.facing && declared.half;
    Turn {
        axis: if declared.axis {
            Some(face.spec_axis())
        } else {
            None
        },
        facing: if declared.facing {
            Some(spec_facing_for(yaw))
        } else {
            None
        },
        tall,
        hinge: if tall && declared.hinge {
            if strike_hinges_right(spec_facing_for(yaw), strike) || door_beside {
                Some(Hinge::Right)
            } else {
                Some(Hinge::Left)
            }
        } else {
            None
        },
    }
}

/// Which of the properties that shape a placement the kind `kind` has.
pub open spec fn declared_by(kind: int) -> Declared {
    Declared {
        axis: kind_declares(kind, Prop::Axis),
        facing: kind_declares(kind, Prop::Facing),
        half: kind_declares(kind, Prop::Half),
        hinge: kind_declares(kind, Prop::Hinge),
    }
}

/// Whether `turn` sets only properties that are declared.
pub open spec fn fits(turn: Turn, declared: Declared) -> bool {
    &&& turn.axis is Some ==> declared.axis
    &&& turn.facing is Some ==> declared.facing
    &&& turn.tall ==> declared.half
    &&& turn.hinge is Some ==> declared.hinge
}

/// Whether a block in state `state` is of the family of doors, the blocks
/// that stand two cells tall on a hinge: whether its kind has a half and a
/// hinge.
pub open spec fn is_door(state: int) -> bool {
    kind_declares(state_kind(state), Prop::Half) && kind_declares(state_kind(state), Prop::Hinge)
}

/// Whether the cell beside `target`, seen from `facing`, exists and holds a
/// door.
pub open spec fn door_beside(
    cells: Map<(int, int, int), int>,
    target: (int, int, int),
    facing: Facing,
) -> bool {
    let at = step(target, spec_beside(facing));
    in_grid(at) && cells.contains_key(at) && is_door(cells[at])
}

/// The cells of a block that starts out in state `base` and is turned by
/// `turn`: the axis is set, then the facing; a tall block has a lower cell
/// with the lower half and the hinge, and an upper cell that is the lower
/// one with the upper half.
pub open spec fn turned(base: int, turn: Turn) -> (int, Option<int>) {
    let plain = match turn.axis {
        Some(axis) => with_property(base, Property::Axis(axis)),
        None => base,
    };
    let faced = match turn.facing {
        Some(facing) => with_property(plain, Property::Facing(facing)),
        None => plain,
    };
    if !turn.tall {
        (faced, None)
    } else {
        let halved = with_property(faced, Property::Half(Half::Lower));
        let lower = match turn.hinge {
            Some(hinge) => with_property(halved, Property::Hinge(hinge)),
            None => halved,
        };
        (lower, Some(with_property(lower, Property::Half(Half::Upper))))
    }
}

/// The cells of a block of kind `kind` placed at `target` against `face` by
/// a player who looks along `yaw` and struck the face at `strike`: the
/// default state of the kind, turned.
pub open spec fn resolved(
    kind: int,
    face: Face,
    yaw: int,
    strike: Strike,
    cells: Map<(int, int, int), int>,
    target: (int, int, int),
) -> (int, Option<int>) {
    turned(
        kind_default(kind),
        spec_turn(
            declared_by(kind),
            face,
            yaw,
            strike,
            door_beside(cells, target, spec_facing_for(yaw)),
        ),
    )
}

/// The cells after `shape` is written at `target`: the lower state at the
/// target and the upper state, where there is one, one cell above it. The
/// upper cell is overwritten whatever it held.
pub open spec fn placed(
    cells: Map<(int, int, int), int>,
    target: (int, int, int),
    shape: (int, Option<int>),
) -> Map<(int, int, int), int> {
    let above = step(target, Face::Up);
    match shape.1 {
        Some(upper) if in_grid(above) => written(written(cells, above, upper), target, shape.0),
        _ => written(cells, target, shape.0),
    }
}

/// The direction in which a second door would stand beside one that faces
/// `facing`.
pub fn beside(facing: Facing) -> (side: Face)
    ensures
        side == spec_beside(facing),
{
    match facing {
        Facing::South => Face::East,
        Facing::North => Face::West,
        Facing::East => Face::North,
        Facing::West => Face::South,
    }
}

/// Whether a block in state `state` is of the family of doors.
pub fn state_is_door(state: CellState) -> (door: bool)
    ensures
        door == is_door(state@),
{
    let kind = state.kind();
    kind.declares(Prop::Half) && kind.declares(Prop::Hinge)
}

/// Whether the strike alone puts the hinge on the right.
pub fn hinges_right(facing: Facing, strike: Strike) -> (right: bool)
    ensures
        right == strike_hinges_right(facing, strike),
{
    match facing {
        Facing::South => strike.x == Side::Below,
        Facing::North => strike.x == Side::Above,
        Facing::East => strike.z == Side::Above,
        Facing::West => strike.z == Side::Below,
    }
}

/// How a block is turned that is placed against `face` by a player who
/// looks along `yaw` and struck the face at `strike`; `door_beside` says
/// whether a door stands beside the target.
pub fn turn_for(declared: Declared, face: Face, yaw: i32, strike: Strike, door_beside: bool) -> (turn:
    Turn)
    ensures
        turn == spec_turn(declared, face, yaw as int, strike, door_beside),
        fits(turn, declared),
{
    let axis = if declared.axis {
        Some(axis_for(face))
    } else {
        None
    };
    if !declared.facing {
        return Turn { axis, facing: None, tall: false, hinge: None };
    }
    let facing = facing_for(yaw);
    if !declared.half {
        return Turn { axis, facing: Some(facing), tall: false, hinge: None };
    }
    let hinge = if !declared.hinge {
        None
    } else if hinges_right(facing, strike) || door_beside {
        Some(Hinge::Right)
    } else {
        Some(Hinge::Left)
    };
    Turn { axis, facing: Some(facing), tall: true, hinge }
}

/// Which of the properties that shape a placement the kind has.
pub fn declared(kind: BlockKindId) -> (declared: Declared)
    ensures
        declared == declared_by(kind@),
{
    Declared {
        axis: kind.declares(Prop::Axis),
        facing: kind.declares(Prop::Facing),
        half: kind.declares(Prop::Half),
        hinge: kind.declares(Prop::Hinge),
    }
}

/// Whether the cell beside `target`, seen from `facing`, exists and holds a
/// door.
pub fn is_door_beside(layer: &ChunkLayer, target: Position, facing: Facing) -> (door: bool)
    ensures
        door == door_beside(loaded_cells(*layer), target.key(), facing),
{
    match target.offset(beside(facing)) {
        None => false,
        Some(at) => match read_cell(layer, at) {
            None => false,
            Some(state) => state_is_door(state),
        },
    }
}

/// The cells of a block that starts out in state `base` and is turned by
/// `turn`, which sets only properties that the kind of the block has. The
/// cells hold blocks of that kind.
pub fn turn_state(base: CellState, turn: Turn) -> (shape: Placement)
    requires
        fits(turn, declared_by(state_kind(base@))),
    ensures
        shape@ == turned(base@, turn),
        state_kind(shape.lower@) == state_kind(base@),
        shape.upper matches Some(upper) ==> state_kind(upper@) == state_kind(base@),
{
    let mut state = base;
    if let Some(axis) = turn.axis {
        state = state.with(Property::Axis(axis));
    }
    if let Some(facing) = turn.facing {
        state = state.with(Property::Facing(facing));
    }
    if !turn.tall {
        return Placement { lower: state, upper: None };
    }
    state = state.with(Property::Half(Half::Lower));
    if let Some(hinge) = turn.hinge {
        state = state.with(Property::Hinge(hinge));
    }
    Placement { lower: state, upper: Some(state.with(Property::Half(Half::Upper))) }
}

/// The cells of a block of kind `kind` placed at `target`; they hold
/// blocks of that kind. The cell beside the target is read only for a kind
/// with a hinge, and only where the strike says left.
pub fn resolve(
    layer: &ChunkLayer,
    kind: BlockKindId,
    face: Face,
    yaw: i32,
    strike: Strike,
    target: Position,
) -> (shape: Placement)
    ensures
        shape@ == resolved(kind@, face, yaw as int, strike, loaded_cells(*layer), target.key()),
        state_kind(shape.lower@) == kind@,
        shape.upper matches Some(upper) ==> state_kind(upper@) == kind@,
{
    let declared = declared(kind);
    let facing = facing_for(yaw);
    let door = declared.facing && declared.half && declared.hinge && !hinges_right(facing, strike)
        && is_door_beside(layer, target, facing);
    turn_state(kind.default_state(), turn_for(declared, face, yaw, strike, door))
}

/// Writes `shape` at `target`.
pub fn place(layer: &mut ChunkLayer, target: Position, shape: Placement)
    ensures
        loaded_cells(*final(layer)) == placed(loaded_cells(*old(layer)), target.key(), shape@),
{
    if let Some(upper) = shape.upper {
        if let Some(above) = target.offset(Face::Up) {
            write_cell(layer, above, upper);
        }
    }
    write_cell(layer, target, shape.lower);
}

} // verus!
