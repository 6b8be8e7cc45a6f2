//! Moods and the movement policy they select.
//!
//! A mood picks a speed, a gravity vector and an input remapping. The base
//! speed is 280 units per second; the moods scale it by 1, 0.75 and 0.9,
//! which in milliunits per millisecond comes out to the exact integers 280,
//! 210 and 252. Gravity is likewise stated in milliunits per millisecond.

use vstd::prelude::*;

verus! {

/// Gameplay modifier selecting movement speed, gravity and an optional
/// input-axis remap. Changing mood takes effect on the next tick.
#[derive(Clone, Copy, PartialEq, Eq, Structural, Debug)]
pub enum Mood {
    Normal,
    Heavy,
    Sideways,
}

impl Default for Mood {
    /// The mood every round starts in.
    fn default() -> (m: Mood)
        ensures
            m == Mood::Normal,
    {
        Mood::Normal
    }
}

/// Player speed under `m`, in milliunits per millisecond: the 280 unit/s
/// base speed times the mood's multiplier (1, 0.75 or 0.9).
pub open spec fn speed_per_ms(m: Mood) -> int {
    match m {
        Mood::Normal => 280,
        Mood::Heavy => 210,
        Mood::Sideways => 252,
    }
}

/// Horizontal gravity under `m`, in milliunits per millisecond.
pub open spec fn gravity_x_per_ms(m: Mood) -> int {
    match m {
        Mood::Normal => 0,
        Mood::Heavy => 0,
        Mood::Sideways => -120,
    }
}

/// Vertical gravity under `m`, in milliunits per millisecond.
pub open spec fn gravity_y_per_ms(m: Mood) -> int {
    match m {
        Mood::Normal => -60,
        Mood::Heavy => -140,
        Mood::Sideways => 0,
    }
}

/// The movement input after the mood's axis remap: Sideways rotates the
/// control axes a quarter turn, `(x, y)` becoming `(y, -x)`; the other
/// moods leave the input unchanged.
pub open spec fn remapped_input(m: Mood, x: int, y: int) -> (int, int) {
    match m {
        Mood::Sideways => (y, -x),
        _ => (x, y),
    }
}

/// The numbers a mood selects, ready for the movement integration.
#[derive(Clone, Copy, PartialEq, Eq, Structural, Debug)]
pub struct MoodPolicy {
    pub speed_per_ms: i64,
    pub gravity_x_per_ms: i64,
    pub gravity_y_per_ms: i64,
}

impl MoodPolicy {
    /// Look up the policy for a mood.
    pub fn for_mood(m: Mood) -> (p: MoodPolicy)
        ensures
            p.speed_per_ms as int == speed_per_ms(m),
            p.gravity_x_per_ms as int == gravity_x_per_ms(m),
            p.gravity_y_per_ms as int == gravity_y_per_ms(m),
    {
        match m {
            Mood::Normal => MoodPolicy {
                speed_per_ms: 280,
                gravity_x_per_ms: 0,
                gravity_y_per_ms: -60,
            },
            Mood::Heavy => MoodPolicy {
                speed_per_ms: 210,
                gravity_x_per_ms: 0,
                gravity_y_per_ms: -140,
            },
            Mood::Sideways => MoodPolicy {
                speed_per_ms: 252,
                gravity_x_per_ms: -120,
                gravity_y_per_ms: 0,
            },
        }
    }
}

/// Apply the mood's axis remap to an input vector.
pub fn remap_input(m: Mood, x: i64, y: i64) -> (r: (i64, i64))
    requires
        -1000 <= x <= 1000,
        -1000 <= y <= 1000,
    ensures
        (r.0 as int, r.1 as int) == remapped_input(m, x as int, y as int),
{
    match m {
        Mood::Sideways => (y, -x),
        _ => (x, y),
    }
}

/// The Sideways remap is a quarter-turn rotation: applying it four times
/// returns every input vector to itself, and two applications negate it.
pub proof fn lemma_sideways_remap_four_times_identity(x: int, y: int)
    ensures
        ({
            let r1 = remapped_input(Mood::Sideways, x, y);
            let r2 = remapped_input(Mood::Sideways, r1.0, r1.1);
            let r3 = remapped_input(Mood::Sideways, r2.0, r2.1);
            let r4 = remapped_input(Mood::Sideways, r3.0, r3.1);
            r4 == (x, y) && r2 == (-x, -y)
        }),
{
}

/// Normal and Heavy leave the input untouched; only Sideways remaps it.
pub proof fn lemma_remap_identity_unless_sideways(m: Mood, x: int, y: int)
    requires
        m != Mood::Sideways,
    ensures
        remapped_input(m, x, y) == (x, y),
{
}

} // verus!
