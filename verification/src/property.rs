//! The properties of a block that shape a placement, and their values.

use vstd::prelude::*;
use crate::orientation::{Axis, Facing};

verus! {

/// The half of a two-cell block that a cell holds.
#[derive(Clone, Copy, Debug, PartialEq, Eq, Structural)]
pub enum Half {
    Lower,
    Upper,
}

/// The side on which a two-cell block is hinged.
#[derive(Clone, Copy, Debug, PartialEq, Eq, Structural)]
pub enum Hinge {
    Left,
    Right,
}

/// A property that a kind of block can have.
#[derive(Clone, Copy, Debug, PartialEq, Eq, Structural)]
pub enum Prop {
    Axis,
    Facing,
    Half,
    Hinge,
}

/// A value that a property can have.
#[derive(Clone, Copy, Debug, PartialEq, Eq, Structural)]
pub enum Value {
    X,
    Y,
    Z,
    North,
    South,
    East,
    West,
    Lower,
    Upper,
    Left,
    Right,
}

/// A property with a value for it.
#[derive(Clone, Copy, Debug, PartialEq, Eq, Structural)]
pub enum Property {
    Axis(Axis),
    Facing(Facing),
    Half(Half),
    Hinge(Hinge),
}

impl Property {
    /// The property that the value is for.
    pub open spec fn spec_prop(self) -> Prop {
        match self {
            Property::Axis(_) => Prop::Axis,
            Property::Facing(_) => Prop::Facing,
            Property::Half(_) => Prop::Half,
            Property::Hinge(_) => Prop::Hinge,
        }
    }

    /// The value by itself.
    pub open spec fn spec_value(self) -> Value {
        match self {
            Property::Axis(Axis::X) => Value::X,
            Property::Axis(Axis::Y) => Value::Y,
            Property::Axis(Axis::Z) => Value::Z,
            Property::Facing(Facing::North) => Value::North,
            Property::Facing(Facing::South) => Value::South,
            Property::Facing(Facing::East) => Value::East,
            Property::Facing(Facing::West) => Value::West,
            Property::Half(Half::Lower) => Value::Lower,
            Property::Half(Half::Upper) => Value::Upper,
            Property::Hinge(Hinge::Left) => Value::Left,
            Property::Hinge(Hinge::Right) => Value::Right,
        }
    }

    /// The value by itself.
    #[verifier::when_used_as_spec(spec_value)]
    pub fn value(self) -> (value: Value)
        ensures
            value == self.spec_value(),
    {
        match self {
            Property::Axis(Axis::X) => Value::X,
            Property::Axis(Axis::Y) => Value::Y,
            Property::Axis(Axis::Z) => Value::Z,
            Property::Facing(Facing::North) => Value::North,
            Property::Facing(Facing::South) => Value::South,
            Property::Facing(Facing::East) => Value::East,
            Property::Facing(Facing::West) => Value::West,
            Property::Half(Half::Lower) => Value::Lower,
            Property::Half(Half::Upper) => Value::Upper,
            Property::Hinge(Hinge::Left) => Value::Left,
            Property::Hinge(Hinge::Right) => Value::Right,
        }
    }

    /// The property that the value is for.
    #[verifier::when_used_as_spec(spec_prop)]
    pub fn prop(self) -> (prop: Prop)
        ensures
            prop == self.spec_prop(),
    {
        match self {
            Property::Axis(_) => Prop::Axis,
            Property::Facing(_) => Prop::Facing,
            Property::Half(_) => Prop::Half,
            Property::Hinge(_) => Prop::Hinge,
        }
    }
}

} // verus!
