//! Earth axes conventions and the reference directions the filter compares its
//! sensors against.
use vstd::prelude::*;

verus! {

/// Earth axes convention.
#[derive(Clone, Copy, Debug, PartialEq, Eq, Structural)]
pub enum Convention {
    /// X north, Y west, Z up.
    NorthWestUp,
    /// X east, Y north, Z up.
    EastNorthUp,
    /// X north, Y east, Z down.
    NorthWestDown,
}

impl Default for Convention {
    fn default() -> (r: Convention)
        ensures
            r == Convention::NorthWestUp,
    {
        Convention::NorthWestUp
    }
}

/// An axis of a right-handed frame.
#[derive(Clone, Copy, Debug, PartialEq, Eq, Structural)]
pub enum Axis {
    X,
    Y,
    Z,
}

/// A direction in the Earth frame.
#[derive(Clone, Copy, Debug, PartialEq, Eq, Structural)]
pub enum EarthDirection {
    North,
    South,
    East,
    West,
    Up,
    Down,
}

/// The opposite of an Earth direction.
pub open spec fn opposite(d: EarthDirection) -> EarthDirection {
    match d {
        EarthDirection::North => EarthDirection::South,
        EarthDirection::South => EarthDirection::North,
        EarthDirection::East => EarthDirection::West,
        EarthDirection::West => EarthDirection::East,
        EarthDirection::Up => EarthDirection::Down,
        EarthDirection::Down => EarthDirection::Up,
    }
}

/// The Earth direction along which the positive Earth axis `axis` points.
pub open spec fn axis_direction(convention: Convention, axis: Axis) -> EarthDirection {
    match (convention, axis) {
        (Convention::NorthWestUp, Axis::X) => EarthDirection::North,
        (Convention::NorthWestUp, Axis::Y) => EarthDirection::West,
        (Convention::NorthWestUp, Axis::Z) => EarthDirection::Up,
        (Convention::EastNorthUp, Axis::X) => EarthDirection::East,
        (Convention::EastNorthUp, Axis::Y) => EarthDirection::North,
        (Convention::EastNorthUp, Axis::Z) => EarthDirection::Up,
        (Convention::NorthWestDown, Axis::X) => EarthDirection::North,
        (Convention::NorthWestDown, Axis::Y) => EarthDirection::East,
        (Convention::NorthWestDown, Axis::Z) => EarthDirection::Down,
    }
}

/// A signed Earth axis: the axis itself, or its negation.
#[derive(Clone, Copy, Debug, PartialEq, Eq, Structural)]
pub struct SignedAxis {
    pub axis: Axis,
    pub negated: bool,
}

impl SignedAxis {
    /// The Earth direction that this signed axis points along.
    pub open spec fn direction(self, convention: Convention) -> EarthDirection {
        if self.negated {
            opposite(axis_direction(convention, self.axis))
        } else {
            axis_direction(convention, self.axis)
        }
    }
}

/// The Earth axis that points up, against which the accelerometer is compared.
///
/// The filter predicts this direction in the sensor frame as the matching column
/// of the transposed rotation matrix, negated when `negated` is set.
pub fn gravity_reference(convention: Convention) -> (r: SignedAxis)
    ensures
        r.direction(convention) == EarthDirection::Up,
{
    match convention {
        Convention::NorthWestUp => SignedAxis { axis: Axis::Z, negated: false },
        Convention::EastNorthUp => SignedAxis { axis: Axis::Z, negated: false },
        Convention::NorthWestDown => SignedAxis { axis: Axis::Z, negated: true },
    }
}

/// The Earth axis that points west, against which the horizontal part of the
/// magnetic field (crossed with gravity) is compared.
pub fn magnetic_reference(convention: Convention) -> (r: SignedAxis)
    ensures
        r.direction(convention) == EarthDirection::West,
{
    match convention {
        Convention::NorthWestUp => SignedAxis { axis: Axis::Y, negated: false },
        Convention::EastNorthUp => SignedAxis { axis: Axis::X, negated: true },
        Convention::NorthWestDown => SignedAxis { axis: Axis::Y, negated: true },
    }
}

} // verus!
