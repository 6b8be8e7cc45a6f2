//! Laws of the round lifecycle that span several update steps.
//!
//! These proof functions state, over the specification model
//! [`machine_step`](crate::machine::machine_step), how whole runs of
//! `advance` calls behave: the score never drops during play, a finished
//! round stays frozen, and every round terminates once the round clock's
//! time has elapsed — or immediately when the last pickup is collected.

use crate::arena::Arena;
use crate::machine::{PhaseModel, clamped_delta, clamped_input, machine_step, phase_wf,
    lemma_machine_step_preserves_wf, score_of};
use crate::mood::Mood;
use crate::pickups::{PICKUP_RADIUS, keep_fn};
use crate::player::moved_clamped;
use vstd::prelude::*;

verus! {

/// The arguments of one `advance` call, as the model sees them.
pub struct AdvanceArgs {
    pub delta: int,
    pub ix: int,
    pub iy: int,
    pub mood_select: Option<Mood>,
    pub confirm: bool,
}

/// The model state after one `advance` call with arguments `a`.
pub open spec fn step_with(ph: PhaseModel, a: AdvanceArgs) -> PhaseModel {
    machine_step(ph, a.delta, a.ix, a.iy, a.mood_select, a.confirm)
}

/// The model state after a whole run of `advance` calls.
pub open spec fn machine_run(ph: PhaseModel, steps: Seq<AdvanceArgs>) -> PhaseModel
    decreases steps.len(),
{
    if steps.len() == 0 {
        ph
    } else {
        machine_run(step_with(ph, steps[0]), steps.drop_first())
    }
}

/// Total clock time a run delivers, after the per-call clamping.
pub open spec fn run_delta_sum(steps: Seq<AdvanceArgs>) -> int
    decreases steps.len(),
{
    if steps.len() == 0 {
        0
    } else {
        clamped_delta(steps[0].delta) + run_delta_sum(steps.drop_first())
    }
}

/// Well-formedness is preserved along a whole run.
pub proof fn lemma_machine_run_preserves_wf(ph: PhaseModel, steps: Seq<AdvanceArgs>)
    requires
        phase_wf(ph),
    ensures
        phase_wf(machine_run(ph, steps)),
    decreases steps.len(),
{
    if steps.len() > 0 {
        lemma_machine_step_preserves_wf(
            ph,
            steps[0].delta,
            steps[0].ix,
            steps[0].iy,
            steps[0].mood_select,
            steps[0].confirm,
        );
        lemma_machine_run_preserves_wf(step_with(ph, steps[0]), steps.drop_first());
    }
}

/// During play the score only ever increases: one step from a Playing
/// state — whether it stays Playing or ends the round — never lowers the
/// score.
pub proof fn lemma_score_never_decreases(
    ph: PhaseModel,
    delta: int,
    ix: int,
    iy: int,
    mood_select: Option<Mood>,
    confirm: bool,
)
    requires
        phase_wf(ph),
        ph is Playing,
    ensures
        score_of(machine_step(ph, delta, ix, iy, mood_select, confirm)) >= score_of(ph),
{
    match ph {
        PhaseModel::Playing { difficulty, clock, player, pickups, mood, score } => {
            let mood1 = match mood_select {
                Option::Some(m) => m,
                Option::None => mood,
            };
            let player1 = moved_clamped(
                Arena::standard_spec(),
                player,
                mood1,
                clamped_input(ix),
                clamped_input(iy),
                clamped_delta(delta),
            );
            pickups.lemma_filter_len(keep_fn(player1, PICKUP_RADIUS as int));
        },
        _ => {},
    }
}

/// A finished round is frozen: no run of `advance` calls changes a
/// GameOver state — the final score and mood stay as they are until a
/// replay or return-to-menu trigger.
pub proof fn lemma_game_over_is_frozen(ph: PhaseModel, steps: Seq<AdvanceArgs>)
    requires
        ph is GameOver,
    ensures
        machine_run(ph, steps) == ph,
    decreases steps.len(),
{
    if steps.len() > 0 {
        lemma_game_over_is_frozen(ph, steps.drop_first());
    }
}

/// The timeout path of round termination: from any Playing state, any run
/// of `advance` calls that delivers at least the clock's remaining time
/// ends in GameOver — the round terminates within the time limit plus the
/// one tick that reaches it, pickups or no pickups.
pub proof fn lemma_round_times_out(ph: PhaseModel, steps: Seq<AdvanceArgs>)
    requires
        phase_wf(ph),
        ph matches PhaseModel::Playing { clock, .. } && run_delta_sum(steps)
            >= clock.remaining(),
    ensures
        machine_run(ph, steps) is GameOver,
    decreases steps.len(),
{
    let clock = ph->Playing_clock;
    if steps.len() == 0 {
        assert(clock.remaining() > 0);
    } else {
        let a = steps[0];
        let rest = steps.drop_first();
        let ph1 = step_with(ph, a);
        lemma_machine_step_preserves_wf(ph, a.delta, a.ix, a.iy, a.mood_select, a.confirm);
        match ph1 {
            PhaseModel::GameOver { .. } => {
                lemma_game_over_is_frozen(ph1, rest);
            },
            PhaseModel::Playing { clock: clock1, .. } => {
                assert(clock1 == clock.ticked(clamped_delta(a.delta)));
                assert(clock1.remaining() == clock.remaining() - clamped_delta(a.delta));
                lemma_round_times_out(ph1, rest);
            },
            _ => {
                assert(false);
            },
        }
    }
}

/// The exhaustion path of round termination: a Playing step whose
/// collection pass removes every remaining pickup ends the round on that
/// same tick, however much time remains, and credits every removed pickup
/// to the final score.
pub proof fn lemma_last_pickup_ends_round(
    ph: PhaseModel,
    delta: int,
    ix: int,
    iy: int,
    mood_select: Option<Mood>,
    confirm: bool,
)
    requires
        phase_wf(ph),
        ph matches PhaseModel::Playing { player, pickups, mood, .. } && ({
            let mood1 = match mood_select {
                Option::Some(m) => m,
                Option::None => mood,
            };
            let player1 = moved_clamped(
                Arena::standard_spec(),
                player,
                mood1,
                clamped_input(ix),
                clamped_input(iy),
                clamped_delta(delta),
            );
            pickups.filter(keep_fn(player1, PICKUP_RADIUS as int)).len() == 0
        }),
    ensures
        machine_step(ph, delta, ix, iy, mood_select, confirm) is GameOver,
        score_of(machine_step(ph, delta, ix, iy, mood_select, confirm)) == score_of(ph)
            + ph->Playing_pickups.len(),
{
}

} // verus!
