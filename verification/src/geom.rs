//! Plain 2D integer geometry.
//!
//! Coordinates are "milliunits": one world unit is `UNIT_SCALE` milliunits.
//! All geometry is exact integer arithmetic; distances are compared squared,
//! so no square root is ever needed.

use vstd::prelude::*;

verus! {

/// Number of coordinate milliunits in one world unit.
pub const UNIT_SCALE: i64 = 1000;

/// Largest coordinate magnitude the geometry accepts. Keeping coordinates
/// within this bound lets squared distances of two in-range points fit in
/// an `i64` without overflow.
pub const COORD_LIMIT: i64 = 1_000_000_000;

/// A 2D point or vector in milliunit coordinates.
#[derive(Clone, Copy, PartialEq, Eq, Structural, Debug)]
pub struct Vec2 {
    pub x: i64,
    pub y: i64,
}

/// Mathematical abstraction of [`Vec2`]: the same point over unbounded integers.
pub struct Vec2Model {
    pub x: int,
    pub y: int,
}

impl View for Vec2 {
    type V = Vec2Model;

    open spec fn view(&self) -> Vec2Model {
        Vec2Model { x: self.x as int, y: self.y as int }
    }
}

impl Vec2 {
    pub fn new(x: i64, y: i64) -> (v: Vec2)
        ensures
            v.x == x,
            v.y == y,
    {
        Vec2 { x, y }
    }
}

/// Both coordinates lie within [`COORD_LIMIT`].
pub open spec fn in_coord_range(p: Vec2Model) -> bool {
    &&& -COORD_LIMIT <= p.x <= COORD_LIMIT
    &&& -COORD_LIMIT <= p.y <= COORD_LIMIT
}

/// Squared Euclidean distance between two points.
pub open spec fn dist_sq(a: Vec2Model, b: Vec2Model) -> int {
    (a.x - b.x) * (a.x - b.x) + (a.y - b.y) * (a.y - b.y)
}

/// Whether `a` lies within Euclidean distance `r` of `b`, compared exactly
/// on squared distances.
pub open spec fn within_distance(a: Vec2Model, b: Vec2Model, r: int) -> bool {
    dist_sq(a, b) <= r * r
}

/// Runtime check for [`within_distance`] on in-range points.
pub fn within_distance_check(a: Vec2, b: Vec2, r: i64) -> (res: bool)
    requires
        in_coord_range(a@),
        in_coord_range(b@),
        0 <= r <= COORD_LIMIT,
    ensures
        res == within_distance(a@, b@, r as int),
{
    let dx = a.x - b.x;
    let dy = a.y - b.y;
    proof {
        assert(dx * dx <= 4_000_000_000_000_000_000 && dx * dx >= 0) by (nonlinear_arith)
            requires -2_000_000_000 <= dx <= 2_000_000_000;
        assert(dy * dy <= 4_000_000_000_000_000_000 && dy * dy >= 0) by (nonlinear_arith)
            requires -2_000_000_000 <= dy <= 2_000_000_000;
        assert(r * r <= 1_000_000_000_000_000_000 && r * r >= 0) by (nonlinear_arith)
            requires 0 <= r <= 1_000_000_000;
    }
    dx * dx + dy * dy <= r * r
}

} // verus!
