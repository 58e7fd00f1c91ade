//! Directions, axes and the facing that a look angle selects.

use vstd::prelude::*;

verus! {

/// One of the six faces of a cell, named by the direction it looks in.
#[derive(Clone, Copy, Debug, PartialEq, Eq, Structural)]
pub enum Face {
    Up,
    Down,
    North,
    South,
    East,
    West,
}

/// The axis along which a face's direction runs.
#[derive(Clone, Copy, Debug, PartialEq, Eq, Structural)]
pub enum Axis {
    X,
    Y,
    Z,
}

/// One of the four horizontal directions.
#[derive(Clone, Copy, Debug, PartialEq, Eq, Structural)]
pub enum Facing {
    North,
    South,
    East,
    West,
}

impl Face {
    /// The face on the other side of the cell.
    pub open spec fn spec_inverse(self) -> Face {
        match self {
            Face::Up => Face::Down,
            Face::Down => Face::Up,
            Face::North => Face::South,
            Face::South => Face::North,
            Face::East => Face::West,
            Face::West => Face::East,
        }
    }

    /// The face on the other side of the cell.
    #[verifier::when_used_as_spec(spec_inverse)]
    pub fn inverse(self) -> (r: Face)
        ensures
            r == self.spec_inverse(),
    {
        match self {
            Face::Up => Face::Down,
            Face::Down => Face::Up,
            Face::North => Face::South,
            Face::South => Face::North,
            Face::East => Face::West,
            Face::West => Face::East,
        }
    }

    /// The axis of a face: Y for the vertical pair, Z for north and south,
    /// X for east and west.
    pub open spec fn spec_axis(self) -> Axis {
        match self {
            Face::Up | Face::Down => Axis::Y,
            Face::North | Face::South => Axis::Z,
            Face::East | Face::West => Axis::X,
        }
    }
}

/// The axis along which `face` looks.
pub fn axis_for(face: Face) -> (axis: Axis)
    ensures
        axis == face.spec_axis(),
        (face == Face::Up || face == Face::Down) <==> axis == Axis::Y,
        (face == Face::North || face == Face::South) <==> axis == Axis::Z,
        (face == Face::East || face == Face::West) <==> axis == Axis::X,
{
    match face {
        Face::Up | Face::Down => Axis::Y,
        Face::North | Face::South => Axis::Z,
        Face::East | Face::West => Axis::X,
    }
}

/// A yaw in whole degrees brought into the range from -180 to 180: the one
/// value in `(-180, 180]` that differs from `yaw` by a multiple of 360.
pub open spec fn normalized(yaw: int) -> int {
    let r = yaw % 360;
    if r > 180 {
        r - 360
    } else {
        r
    }
}

/// The sector of a yaw between -180 and 180, both included. Each sector
/// is 90 degrees wide and holds its lower bound: east from -135, south
/// from -45, west from 45, and north from 135 through 180 and on from
/// -180 up to -135.
pub open spec fn sector(yaw: int) -> Facing
    recommends
        -180 <= yaw <= 180,
{
    if -135 <= yaw < -45 {
        Facing::East
    } else if -45 <= yaw < 45 {
        Facing::South
    } else if 45 <= yaw < 135 {
        Facing::West
    } else {
        Facing::North
    }
}

/// The facing of a look angle of any size.
pub open spec fn spec_facing_for(yaw: int) -> Facing {
    sector(normalized(yaw))
}

/// The horizontal direction that a player with look angle `yaw` faces.
///
/// `yaw` is the angle in whole degrees, rounded down. The sector bounds
/// are whole degrees, so rounding down moves no angle into another sector.
/// Angles outside `(-180, 180]` are first brought into it by full turns.
pub fn facing_for(yaw: i32) -> (facing: Facing)
    ensures
        facing == spec_facing_for(yaw as int),
        -180 <= yaw <= 180 ==> facing == sector(yaw as int),
{
    let turned: i32 = yaw % 360;
    let near: i32 = if turned > 180 {
        turned - 360
    } else if turned < -180 {
        turned + 360
    } else {
        turned
    };
    assert(near == normalized(yaw as int) || (near == -180 && normalized(yaw as int) == 180));
    if -135 <= near && near < -45 {
        Facing::East
    } else if -45 <= near && near < 45 {
        Facing::South
    } else if 45 <= near && near < 135 {
        Facing::West
    } else {
        Facing::North
    }
}

/// The inverse of the inverse of a face is the face, and a face and its
/// inverse have one axis.
pub proof fn inverse_turns_back(face: Face)
    ensures
        face.inverse().inverse() == face,
        face.inverse() != face,
        face.inverse().spec_axis() == face.spec_axis(),
{
}

/// The sectors split the angles from -180 to 180 among the four facings:
/// every angle lies in exactly one of the stated intervals, and its facing
/// is the one whose interval holds it.
pub proof fn sectors_partition(yaw: int)
    requires
        -180 <= yaw <= 180,
    ensures
        sector(yaw) == Facing::East <==> -135 <= yaw < -45,
        sector(yaw) == Facing::South <==> -45 <= yaw < 45,
        sector(yaw) == Facing::West <==> 45 <= yaw < 135,
        sector(yaw) == Facing::North <==> (135 <= yaw <= 180 || -180 <= yaw < -135),
        -180 < yaw <= 180 ==> normalized(yaw) == yaw,
        spec_facing_for(yaw) == sector(yaw),
{
}

/// Full turns do not change the facing.
pub proof fn facing_is_periodic(yaw: int, turns: int)
    ensures
        spec_facing_for(yaw + 360 * turns) == spec_facing_for(yaw),
{
    assert((yaw + 360 * turns) % 360 == yaw % 360) by (nonlinear_arith);
}

} // verus!
