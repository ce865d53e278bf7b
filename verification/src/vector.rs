//! Integer vectors in world space.
//!
//! World coordinates are fixed-point: one world unit is [`UNIT`] steps, so
//! every position, offset and speed the library handles is an exact integer.

use vstd::prelude::*;

verus! {

/// Number of coordinate steps in one world unit.
pub const UNIT: i64 = 100;

/// A point or displacement over the mathematical integers: the model of a
/// [`Vector`], free of any machine bound.
pub struct Coords {
    pub x: int,
    pub y: int,
    pub z: int,
}

/// `value` confined to the span from `low` to `high`: raised to `low` first,
/// then lowered to `high`. With `low <= high` this is the nearest value
/// inside the span.
pub open spec fn clamp_axis(value: int, low: int, high: int) -> int {
    let raised = if value < low { low } else { value };
    if raised > high { high } else { raised }
}

impl Coords {
    /// Component-wise sum.
    pub open spec fn plus(self, other: Coords) -> Coords {
        Coords { x: self.x + other.x, y: self.y + other.y, z: self.z + other.z }
    }

    /// Component-wise difference.
    pub open spec fn minus(self, other: Coords) -> Coords {
        Coords { x: self.x - other.x, y: self.y - other.y, z: self.z - other.z }
    }

    /// Each component confined, on its own axis, to the box from `low` to `high`.
    pub open spec fn clamp(self, low: Coords, high: Coords) -> Coords {
        Coords {
            x: clamp_axis(self.x, low.x, high.x),
            y: clamp_axis(self.y, low.y, high.y),
            z: clamp_axis(self.z, low.z, high.z),
        }
    }

    /// `self` lies at or below `other` on every axis.
    pub open spec fn le(self, other: Coords) -> bool {
        self.x <= other.x && self.y <= other.y && self.z <= other.z
    }

    /// Square of the Euclidean length.
    pub open spec fn norm_squared(self) -> int {
        self.x * self.x + self.y * self.y + self.z * self.z
    }

    /// Exactly one component is non-zero.
    pub open spec fn on_one_axis(self) -> bool {
        ||| self.x != 0 && self.y == 0 && self.z == 0
        ||| self.x == 0 && self.y != 0 && self.z == 0
        ||| self.x == 0 && self.y == 0 && self.z != 0
    }
}

/// A point or displacement in world space, in steps of `1 / UNIT`.
#[derive(Clone, Copy, Debug, PartialEq, Eq, Structural)]
pub struct Vector {
    pub x: i64,
    pub y: i64,
    pub z: i64,
}

impl View for Vector {
    type V = Coords;

    open spec fn view(&self) -> Coords {
        Coords { x: self.x as int, y: self.y as int, z: self.z as int }
    }
}

/// Adds `offset` to `value` and confines the exact sum to the span from `low`
/// to `high`. The sum is formed in a wider type, so no input overflows.
pub fn clamped_sum(value: i64, offset: i64, low: i64, high: i64) -> (r: i64)
    ensures
        r == clamp_axis(value + offset, low as int, high as int),
{
    let raw: i128 = value as i128 + offset as i128;
    let raised: i128 = if raw < low as i128 { low as i128 } else { raw };
    if raised > high as i128 {
        high
    } else {
        raised as i64
    }
}

impl Vector {
    /// The vector with the given components.
    pub fn new(x: i64, y: i64, z: i64) -> (v: Vector)
        ensures
            v == (Vector { x, y, z }),
    {
        Vector { x, y, z }
    }

    /// The sum `self + offset`, confined on each axis to the box from `low`
    /// to `high`.
    pub fn offset_clamped(self, offset: Vector, low: Vector, high: Vector) -> (r: Vector)
        ensures
            r@ == self@.plus(offset@).clamp(low@, high@),
    {
        Vector {
            x: clamped_sum(self.x, offset.x, low.x, high.x),
            y: clamped_sum(self.y, offset.y, low.y, high.y),
            z: clamped_sum(self.z, offset.z, low.z, high.z),
        }
    }
}

} // verus!
