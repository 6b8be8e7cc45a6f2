//! Arena bounds and position clamping.
//!
//! The arena is an axis-aligned box; a margin keeps the player's sprite
//! fully inside the walls. Clamping restricts each axis independently to
//! `[-half + margin, half - margin]` and is idempotent.

use crate::geom::{COORD_LIMIT, Vec2, Vec2Model};
use vstd::prelude::*;

verus! {

/// Arena half-width of the standard game world, in milliunits (520 units).
pub const ARENA_HALF_WIDTH: i64 = 520_000;

/// Arena half-height of the standard game world, in milliunits (300 units).
pub const ARENA_HALF_HEIGHT: i64 = 300_000;

/// Margin kept between the player's centre and the walls, in milliunits
/// (28 units).
pub const ARENA_MARGIN: i64 = 28_000;

/// Clamp a single coordinate into `[lo, hi]`.
pub open spec fn clamp_val(v: int, lo: int, hi: int) -> int {
    if v < lo {
        lo
    } else if v > hi {
        hi
    } else {
        v
    }
}

/// Static bounds of the play field, in milliunits.
#[derive(Clone, Copy, PartialEq, Eq, Structural, Debug)]
pub struct Arena {
    pub half_width: i64,
    pub half_height: i64,
    pub margin: i64,
}

impl Arena {
    /// The margin must leave a non-empty box, and the bounds must stay
    /// within the coordinate range the geometry accepts.
    pub open spec fn wf(self) -> bool {
        &&& 0 <= self.margin
        &&& self.margin <= self.half_width <= COORD_LIMIT
        &&& self.margin <= self.half_height <= COORD_LIMIT
    }

    /// Smallest x a clamped position can have.
    pub open spec fn x_min(self) -> int {
        -self.half_width + self.margin
    }

    /// Largest x a clamped position can have.
    pub open spec fn x_max(self) -> int {
        self.half_width - self.margin
    }

    /// Smallest y a clamped position can have.
    pub open spec fn y_min(self) -> int {
        -self.half_height + self.margin
    }

    /// Largest y a clamped position can have.
    pub open spec fn y_max(self) -> int {
        self.half_height - self.margin
    }

    /// Whether `p` already lies inside the clamped box.
    pub open spec fn contains(self, p: Vec2Model) -> bool {
        &&& self.x_min() <= p.x <= self.x_max()
        &&& self.y_min() <= p.y <= self.y_max()
    }

    /// `p` with each axis clamped into the box.
    pub open spec fn clamped(self, p: Vec2Model) -> Vec2Model {
        Vec2Model {
            x: clamp_val(p.x, self.x_min(), self.x_max()),
            y: clamp_val(p.y, self.y_min(), self.y_max()),
        }
    }

    /// The arena the game plays in: 520 by 300 units around the origin with
    /// a 28 unit margin.
    pub open spec fn standard_spec() -> Arena {
        Arena {
            half_width: ARENA_HALF_WIDTH,
            half_height: ARENA_HALF_HEIGHT,
            margin: ARENA_MARGIN,
        }
    }

    /// Build the standard game arena.
    pub fn standard() -> (a: Arena)
        ensures
            a == Arena::standard_spec(),
            a.wf(),
    {
        Arena {
            half_width: ARENA_HALF_WIDTH,
            half_height: ARENA_HALF_HEIGHT,
            margin: ARENA_MARGIN,
        }
    }

    /// Restrict `p` to the box, axis by axis.
    pub fn clamp(&self, p: Vec2) -> (r: Vec2)
        requires
            self.wf(),
        ensures
            r@ == self.clamped(p@),
            self.contains(r@),
    {
        let x_lo = -self.half_width + self.margin;
        let x_hi = self.half_width - self.margin;
        let y_lo = -self.half_height + self.margin;
        let y_hi = self.half_height - self.margin;
        let x = if p.x < x_lo {
            x_lo
        } else if p.x > x_hi {
            x_hi
        } else {
            p.x
        };
        let y = if p.y < y_lo {
            y_lo
        } else if p.y > y_hi {
            y_hi
        } else {
            p.y
        };
        Vec2 { x, y }
    }
}

/// Clamping is idempotent: clamping an already-clamped position changes
/// nothing, for every position.
pub proof fn lemma_clamp_idempotent(a: Arena, p: Vec2Model)
    requires
        a.wf(),
    ensures
        a.clamped(a.clamped(p)) == a.clamped(p),
{
}

} // verus!
