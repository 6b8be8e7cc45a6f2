//! The player: a position that integrates movement input, mood physics and
//! gravity each tick, clamped to the arena.

use crate::arena::Arena;
use crate::geom::{Vec2, Vec2Model};
use crate::mood::{Mood, MoodPolicy, gravity_x_per_ms, gravity_y_per_ms, remap_input,
    remapped_input, speed_per_ms};
use vstd::prelude::*;

verus! {

/// Scale of a movement input component: a unit input vector has components
/// in `[-INPUT_SCALE, INPUT_SCALE]`.
pub const INPUT_SCALE: i64 = 1000;

/// Where the player stands when a round begins, in milliunits
/// (420 units left of centre).
pub const PLAYER_START_X: i64 = -420_000;

/// Where the player stands when a round begins: on the centre line.
pub const PLAYER_START_Y: i64 = 0;

/// Distance travelled along one axis in one tick from input alone:
/// the input component (scaled by [`INPUT_SCALE`]) times the mood's speed
/// times the tick length, divided back by the input scale, rounded toward
/// zero.
pub open spec fn input_step(i: int, speed: int, dt: int) -> int {
    if i >= 0 {
        (i * speed * dt) / 1000
    } else {
        -(((-i) * speed * dt) / 1000)
    }
}

/// The player's position after one movement tick, before clamping: the
/// mood-remapped input moves the player at the mood's speed, and the
/// mood's gravity pulls for the whole tick.
pub open spec fn moved(pos: Vec2Model, mood: Mood, ix: int, iy: int, dt: int) -> Vec2Model {
    let r = remapped_input(mood, ix, iy);
    Vec2Model {
        x: pos.x + input_step(r.0, speed_per_ms(mood), dt) + gravity_x_per_ms(mood) * dt,
        y: pos.y + input_step(r.1, speed_per_ms(mood), dt) + gravity_y_per_ms(mood) * dt,
    }
}

/// [`moved`], then clamped by the arena: the whole per-tick position
/// update.
pub open spec fn moved_clamped(
    arena: Arena,
    pos: Vec2Model,
    mood: Mood,
    ix: int,
    iy: int,
    dt: int,
) -> Vec2Model {
    arena.clamped(moved(pos, mood, ix, iy, dt))
}

/// Compute [`input_step`] at runtime.
fn input_step_val(i: i64, speed: i64, dt: u32) -> (s: i64)
    requires
        -1000 <= i <= 1000,
        0 <= speed <= 1000,
    ensures
        s == input_step(i as int, speed as int, dt as int),
{
    let mag: u64 = if i >= 0 {
        i as u64
    } else {
        (-i) as u64
    };
    let sp: u64 = speed as u64;
    let dtw: u64 = dt as u64;
    proof {
        assert(mag * sp <= 1_000_000) by (nonlinear_arith)
            requires mag <= 1000, sp <= 1000;
        assert(mag * sp * dtw <= 1_000_000 * 0xffff_ffffu64) by (nonlinear_arith)
            requires mag * sp <= 1_000_000, dtw <= 0xffff_ffffu64;
    }
    let prod: u64 = mag * sp * dtw;
    let scaled: u64 = prod / 1000;
    proof {
        assert(scaled <= prod) by (nonlinear_arith)
            requires scaled * 1000 <= prod, scaled >= 0;
    }
    if i >= 0 {
        scaled as i64
    } else {
        -(scaled as i64)
    }
}

/// Position of the player avatar. Exists from Countdown entry through
/// round end; mutated every tick while Playing.
#[derive(Clone, Copy, PartialEq, Eq, Structural, Debug)]
pub struct PlayerState {
    pub position: Vec2,
}

impl PlayerState {
    /// The fixed start position of a round.
    pub fn at_start() -> (p: PlayerState)
        ensures
            p.position.x == PLAYER_START_X,
            p.position.y == PLAYER_START_Y,
    {
        PlayerState { position: Vec2 { x: PLAYER_START_X, y: PLAYER_START_Y } }
    }

    /// One movement tick: remap the input by the mood, move at the mood's
    /// speed, apply the mood's gravity, then clamp to the arena.
    pub fn apply_movement(&mut self, arena: &Arena, mood: Mood, input: Vec2, dt_ms: u32)
        requires
            arena.wf(),
            arena.contains(old(self).position@),
            -1000 <= input.x <= 1000,
            -1000 <= input.y <= 1000,
        ensures
            final(self).position@ == moved_clamped(
                *arena,
                old(self).position@,
                mood,
                input.x as int,
                input.y as int,
                dt_ms as int,
            ),
            arena.contains(final(self).position@),
    {
        let policy = MoodPolicy::for_mood(mood);
        let (rx, ry) = remap_input(mood, input.x, input.y);
        let step_x = input_step_val(rx, policy.speed_per_ms, dt_ms);
        let step_y = input_step_val(ry, policy.speed_per_ms, dt_ms);
        proof {
            assert(input_step(rx as int, policy.speed_per_ms as int, dt_ms as int)
                <= 1000 * 0xffff_ffffi64 && input_step(
                rx as int,
                policy.speed_per_ms as int,
                dt_ms as int,
            ) >= -(1000 * 0xffff_ffffi64)) by (nonlinear_arith)
                requires -1000 <= rx <= 1000, 0 <= policy.speed_per_ms <= 1000, dt_ms <= 0xffff_ffffu64;
            assert(input_step(ry as int, policy.speed_per_ms as int, dt_ms as int)
                <= 1000 * 0xffff_ffffi64 && input_step(
                ry as int,
                policy.speed_per_ms as int,
                dt_ms as int,
            ) >= -(1000 * 0xffff_ffffi64)) by (nonlinear_arith)
                requires -1000 <= ry <= 1000, 0 <= policy.speed_per_ms <= 1000, dt_ms <= 0xffff_ffffu64;
            assert(policy.gravity_x_per_ms * dt_ms <= 1000 * 0xffff_ffffi64
                && policy.gravity_x_per_ms * dt_ms >= -(1000 * 0xffff_ffffi64)) by (nonlinear_arith)
                requires -1000 <= policy.gravity_x_per_ms <= 1000, 0 <= dt_ms <= 0xffff_ffffu64;
            assert(policy.gravity_y_per_ms * dt_ms <= 1000 * 0xffff_ffffi64
                && policy.gravity_y_per_ms * dt_ms >= -(1000 * 0xffff_ffffi64)) by (nonlinear_arith)
                requires -1000 <= policy.gravity_y_per_ms <= 1000, 0 <= dt_ms <= 0xffff_ffffu64;
        }
        let grav_x = policy.gravity_x_per_ms * (dt_ms as i64);
        let grav_y = policy.gravity_y_per_ms * (dt_ms as i64);
        let raw = Vec2 { x: self.position.x + step_x + grav_x, y: self.position.y + step_y + grav_y };
        self.position = arena.clamp(raw);
    }
}

} // verus!
