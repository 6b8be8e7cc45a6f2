//! Monotonic countdown timer.
//!
//! A [`Timer`] accumulates elapsed milliseconds up to a fixed duration,
//! saturating there, and reports `just_finished` on exactly the tick where
//! the elapsed time first reaches the duration — never on a later tick.

use vstd::prelude::*;

verus! {

/// Mathematical abstraction of [`Timer`], over unbounded integers.
pub struct TimerModel {
    pub duration: int,
    pub elapsed: int,
    pub finished: bool,
    pub just_fired: bool,
}

impl TimerModel {
    /// Basic well-formedness: elapsed time never exceeds the duration, a
    /// finished timer sits exactly at its duration, and `just_fired` implies
    /// finished.
    pub open spec fn wf(self) -> bool {
        &&& 0 <= self.elapsed <= self.duration
        &&& (self.finished ==> self.elapsed == self.duration)
        &&& (self.just_fired ==> self.finished)
    }

    /// A timer freshly started for `duration` milliseconds.
    pub open spec fn fresh(duration: int) -> TimerModel {
        TimerModel { duration, elapsed: 0, finished: false, just_fired: false }
    }

    /// Milliseconds left until the timer finishes.
    pub open spec fn remaining(self) -> int {
        self.duration - self.elapsed
    }

    /// The timer after one tick of `d` milliseconds: elapsed time
    /// accumulates, saturating at the duration; `just_fired` holds exactly
    /// on the tick that first reaches the duration.
    pub open spec fn ticked(self, d: int) -> TimerModel {
        if self.finished {
            TimerModel {
                duration: self.duration,
                elapsed: self.elapsed,
                finished: true,
                just_fired: false,
            }
        } else if self.elapsed + d >= self.duration {
            TimerModel {
                duration: self.duration,
                elapsed: self.duration,
                finished: true,
                just_fired: true,
            }
        } else {
            TimerModel {
                duration: self.duration,
                elapsed: self.elapsed + d,
                finished: false,
                just_fired: false,
            }
        }
    }

    /// The timer after a whole run of ticks.
    pub open spec fn ticked_all(self, ds: Seq<int>) -> TimerModel
        decreases ds.len(),
    {
        if ds.len() == 0 {
            self
        } else {
            self.ticked(ds[0]).ticked_all(ds.drop_first())
        }
    }
}

/// How many ticks of the run report `just_fired`.
pub open spec fn fire_count(t: TimerModel, ds: Seq<int>) -> int
    decreases ds.len(),
{
    if ds.len() == 0 {
        0
    } else {
        (if t.ticked(ds[0]).just_fired { 1int } else { 0int }) + fire_count(
            t.ticked(ds[0]),
            ds.drop_first(),
        )
    }
}

/// Sum of a run of tick deltas.
pub open spec fn delta_sum(ds: Seq<int>) -> int
    decreases ds.len(),
{
    if ds.len() == 0 {
        0
    } else {
        ds[0] + delta_sum(ds.drop_first())
    }
}

pub proof fn lemma_delta_sum_nonneg(ds: Seq<int>)
    requires
        forall|i: int| 0 <= i < ds.len() ==> ds[i] >= 0,
    ensures
        delta_sum(ds) >= 0,
    decreases ds.len(),
{
    if ds.len() > 0 {
        lemma_delta_sum_nonneg(ds.drop_first());
    }
}

/// Over any run of non-negative ticks, `just_finished` fires on exactly one
/// tick per start — the tick on which the accumulated time first reaches the
/// duration — and never again afterwards, however far the run overshoots.
pub proof fn lemma_timer_fires_exactly_once(t: TimerModel, ds: Seq<int>)
    requires
        t.wf(),
        forall|i: int| 0 <= i < ds.len() ==> ds[i] >= 0,
    ensures
        fire_count(t, ds) == if !t.finished && ds.len() > 0 && delta_sum(ds) >= t.remaining() {
            1int
        } else {
            0int
        },
    decreases ds.len(),
{
    if ds.len() > 0 {
        let t1 = t.ticked(ds[0]);
        let rest = ds.drop_first();
        assert(forall|i: int| 0 <= i < rest.len() ==> rest[i] >= 0);
        lemma_timer_fires_exactly_once(t1, rest);
        lemma_delta_sum_nonneg(rest);
    }
}

/// Countdown timer with millisecond resolution.
#[derive(Clone, Copy, PartialEq, Eq, Structural, Debug)]
pub struct Timer {
    duration_ms: u32,
    elapsed_ms: u32,
    finished: bool,
    fired_this_tick: bool,
}

impl View for Timer {
    type V = TimerModel;

    closed spec fn view(&self) -> TimerModel {
        TimerModel {
            duration: self.duration_ms as int,
            elapsed: self.elapsed_ms as int,
            finished: self.finished,
            just_fired: self.fired_this_tick,
        }
    }
}

impl Timer {
    /// Start a timer that will run for `duration_ms` milliseconds.
    pub fn new(duration_ms: u32) -> (t: Timer)
        ensures
            t@ == TimerModel::fresh(duration_ms as int),
            t@.wf(),
    {
        Timer { duration_ms, elapsed_ms: 0, finished: false, fired_this_tick: false }
    }

    /// Advance the timer by `delta_ms`, saturating at the duration.
    pub fn tick(&mut self, delta_ms: u32)
        requires
            old(self)@.wf(),
        ensures
            final(self)@ == old(self)@.ticked(delta_ms as int),
            final(self)@.wf(),
    {
        if self.finished {
            self.fired_this_tick = false;
        } else if delta_ms >= self.duration_ms - self.elapsed_ms {
            self.elapsed_ms = self.duration_ms;
            self.finished = true;
            self.fired_this_tick = true;
        } else {
            self.elapsed_ms = self.elapsed_ms + delta_ms;
            self.fired_this_tick = false;
        }
    }

    /// True exactly on the tick where the elapsed time first reached the
    /// duration; false before, and false on every later tick.
    pub fn just_finished(&self) -> (b: bool)
        ensures
            b == self@.just_fired,
    {
        self.fired_this_tick
    }

    /// Whether the timer has reached its duration.
    pub fn finished(&self) -> (b: bool)
        ensures
            b == self@.finished,
    {
        self.finished
    }

    /// Milliseconds accumulated so far.
    pub fn elapsed_ms(&self) -> (e: u32)
        ensures
            e as int == self@.elapsed,
    {
        self.elapsed_ms
    }

    /// The duration the timer was started with.
    pub fn duration_ms(&self) -> (d: u32)
        ensures
            d as int == self@.duration,
    {
        self.duration_ms
    }

    /// Milliseconds left until the timer finishes.
    pub fn remaining_ms(&self) -> (r: u32)
        requires
            self@.wf(),
        ensures
            r as int == self@.remaining(),
    {
        self.duration_ms - self.elapsed_ms
    }

    /// Zero the elapsed time, making the timer as if freshly started.
    pub fn reset(&mut self)
        ensures
            final(self)@ == TimerModel::fresh(old(self)@.duration),
            final(self)@.wf(),
    {
        self.elapsed_ms = 0;
        self.finished = false;
        self.fired_this_tick = false;
    }
}

} // verus!
