//! Difficulty settings and the per-round configuration derived from them.
//!
//! A difficulty picks the round's time limit and which of the fixed pickup
//! spots are used: Easy plays 60 s over the first five spots of the
//! canonical layout, Normal 45 s over all seven, and Hard 30 s over the
//! seven plus four extra spots. The layout is a fixed literal sequence;
//! its order carries no gameplay meaning beyond determinism.

use crate::geom::{Vec2, in_coord_range};
use vstd::prelude::*;

verus! {

/// Preset selecting time limit and pickup layout for a round.
#[derive(Clone, Copy, PartialEq, Eq, Structural, Debug)]
pub enum Difficulty {
    Easy,
    Normal,
    Hard,
}

impl Difficulty {
    /// Human-readable name of the difficulty.
    pub fn label(self) -> (r: &'static str)
        ensures
            r@ == label_spec(self),
    {
        match self {
            Difficulty::Easy => "Easy",
            Difficulty::Normal => "Normal",
            Difficulty::Hard => "Hard",
        }
    }
}

/// The characters [`Difficulty::label`] returns.
pub open spec fn label_spec(d: Difficulty) -> Seq<char> {
    match d {
        Difficulty::Easy => "Easy"@,
        Difficulty::Normal => "Normal"@,
        Difficulty::Hard => "Hard"@,
    }
}

/// Round time limit in milliseconds: 60 s on Easy, 45 s on Normal,
/// 30 s on Hard.
pub open spec fn time_limit_ms(d: Difficulty) -> int {
    match d {
        Difficulty::Easy => 60_000,
        Difficulty::Normal => 45_000,
        Difficulty::Hard => 30_000,
    }
}

/// The canonical seven pickup spots, in milliunit coordinates.
pub open spec fn base_layout() -> Seq<Vec2> {
    seq![
        Vec2 { x: -400_000i64, y: 210_000 },
        Vec2 { x: -80_000i64, y: 240_000 },
        Vec2 { x: 380_000, y: 160_000 },
        Vec2 { x: 360_000, y: -180_000i64 },
        Vec2 { x: -350_000i64, y: -190_000i64 },
        Vec2 { x: 40_000, y: -210_000i64 },
        Vec2 { x: 0, y: 0 },
    ]
}

/// The four extra spots Hard adds after the canonical seven.
pub open spec fn hard_extra_layout() -> Seq<Vec2> {
    seq![
        Vec2 { x: -260_000i64, y: 40_000 },
        Vec2 { x: 280_000, y: -20_000i64 },
        Vec2 { x: 0, y: 130_000 },
        Vec2 { x: 0, y: -130_000i64 },
    ]
}

/// The pickup spots a round at difficulty `d` starts with: the first five
/// of the canonical layout on Easy, all seven on Normal, the seven plus
/// four extras on Hard.
pub open spec fn pickup_layout(d: Difficulty) -> Seq<Vec2> {
    match d {
        Difficulty::Easy => base_layout().subrange(0, 5),
        Difficulty::Normal => base_layout(),
        Difficulty::Hard => base_layout() + hard_extra_layout(),
    }
}

/// How many pickups a round at difficulty `d` starts with.
pub open spec fn pickup_count(d: Difficulty) -> int {
    pickup_layout(d).len() as int
}

/// Every layout spot lies within the coordinate range, and the counts are
/// 5, 7 and 11 for Easy, Normal and Hard.
pub proof fn lemma_pickup_layout_bounds(d: Difficulty)
    ensures
        forall|i: int|
            0 <= i < pickup_layout(d).len() ==> in_coord_range(#[trigger] pickup_layout(d)[i]@),
        pickup_count(d) == match d {
            Difficulty::Easy => 5int,
            Difficulty::Normal => 7int,
            Difficulty::Hard => 11int,
        },
{
}

/// Per-round configuration: time limit and pickup spots, derived from the
/// difficulty when the round starts and read-only afterwards.
#[derive(Clone, Debug)]
pub struct RoundConfig {
    pub time_limit_ms: u32,
    pub pickup_positions: Vec<Vec2>,
}

impl RoundConfig {
    /// Derive the configuration for a difficulty. Deterministic: the same
    /// difficulty always yields the same time limit and the same spots in
    /// the same order.
    pub fn for_difficulty(d: Difficulty) -> (c: RoundConfig)
        ensures
            c.time_limit_ms as int == time_limit_ms(d),
            c.pickup_positions@ == pickup_layout(d),
            c.pickup_positions@.len() == pickup_count(d),
    {
        let time_limit_ms: u32 = match d {
            Difficulty::Easy => 60_000,
            Difficulty::Normal => 45_000,
            Difficulty::Hard => 30_000,
        };
        let mut pickup_positions: Vec<Vec2> = Vec::new();
        pickup_positions.push(Vec2 { x: -400_000, y: 210_000 });
        pickup_positions.push(Vec2 { x: -80_000, y: 240_000 });
        pickup_positions.push(Vec2 { x: 380_000, y: 160_000 });
        pickup_positions.push(Vec2 { x: 360_000, y: -180_000 });
        pickup_positions.push(Vec2 { x: -350_000, y: -190_000 });
        match d {
            Difficulty::Easy => {},
            _ => {
                pickup_positions.push(Vec2 { x: 40_000, y: -210_000 });
                pickup_positions.push(Vec2 { x: 0, y: 0 });
            },
        }
        match d {
            Difficulty::Hard => {
                pickup_positions.push(Vec2 { x: -260_000, y: 40_000 });
                pickup_positions.push(Vec2 { x: 280_000, y: -20_000 });
                pickup_positions.push(Vec2 { x: 0, y: 130_000 });
                pickup_positions.push(Vec2 { x: 0, y: -130_000 });
            },
            _ => {},
        }
        proof {
            assert(pickup_positions@ =~= pickup_layout(d));
        }
        RoundConfig { time_limit_ms, pickup_positions }
    }
}

/// The pre-round selection an external menu edits: the player's name and
/// the difficulty the next round will use.
#[derive(Clone, Debug)]
pub struct GameConfig {
    pub player_name: String,
    pub difficulty: Difficulty,
}

impl Default for GameConfig {
    /// An empty name and Normal difficulty.
    fn default() -> (c: GameConfig)
        ensures
            c.player_name@.len() == 0,
            c.difficulty == Difficulty::Normal,
    {
        proof {
            reveal_strlit("");
        }
        GameConfig { player_name: "".to_owned(), difficulty: Difficulty::Normal }
    }
}

} // verus!
