use vstd::prelude::*;

verus! {

/// Thousandths of a world unit in one world unit (and milliradians in one
/// radian): every length and angle of the scene is stored in these.
pub const MILLIS_PER_UNIT: i64 = 1000;

/// A 2D vector whose components are thousandths of a world unit.
#[derive(Clone, Copy, Debug, PartialEq, Eq, Structural)]
pub struct Vec2 {
    pub x: i64,
    pub y: i64,
}

impl Vec2 {
    pub fn new(x: i64, y: i64) -> (r: Vec2)
        ensures
            r.x == x,
            r.y == y,
    {
        Vec2 { x, y }
    }

    pub fn zero() -> (r: Vec2)
        ensures
            r.x == 0,
            r.y == 0,
    {
        Vec2 { x: 0, y: 0 }
    }

    /// The vector `(x, y)` given in whole world units.
    pub fn from_units(x: i64, y: i64) -> (r: Vec2)
        requires
            i64::MIN <= x * MILLIS_PER_UNIT <= i64::MAX,
            i64::MIN <= y * MILLIS_PER_UNIT <= i64::MAX,
        ensures
            r.x == x * MILLIS_PER_UNIT,
            r.y == y * MILLIS_PER_UNIT,
    {
        Vec2 { x: x * MILLIS_PER_UNIT, y: y * MILLIS_PER_UNIT }
    }
}

/// Where a camera stands and how far it is turned, as unbounded integers:
/// position in thousandths of a unit, rotation in milliradians.
pub struct Pose {
    pub x: int,
    pub y: int,
    pub rotation: int,
}

impl Pose {
    pub open spec fn origin() -> Pose {
        Pose { x: 0, y: 0, rotation: 0 }
    }

    /// Every component can be stored in an `i64`.
    pub open spec fn fits(self) -> bool {
        &&& i64::MIN <= self.x <= i64::MAX
        &&& i64::MIN <= self.y <= i64::MAX
        &&& i64::MIN <= self.rotation <= i64::MAX
    }
}

} // verus!
