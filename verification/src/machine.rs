//! The round lifecycle state machine.
//!
//! One owned [`RoundStateMachine`] drives a whole session: `Menu ->
//! Countdown -> Playing -> GameOver`, and from GameOver back to Countdown
//! (replay) or Menu. An external driver calls
//! [`RoundStateMachine::advance`] once per discrete time step with the
//! elapsed milliseconds and an input snapshot; the machine advances timers,
//! applies movement, collects pickups, evaluates termination and returns a
//! [`RoundView`] for presentation.
//!
//! Each phase variant owns exactly the sub-state valid for that phase, so
//! "required resource absent" is unrepresentable. The full update rule is
//! stated as the specification function [`machine_step`]; `advance` is
//! proved to implement it exactly.

use crate::arena::Arena;
use crate::config::{Difficulty, RoundConfig, lemma_pickup_layout_bounds, pickup_count,
    pickup_layout, time_limit_ms};
use crate::geom::{Vec2, Vec2Model, in_coord_range};
use crate::mood::Mood;
use crate::pickups::{CollectibleSet, PICKUP_RADIUS, Pickup, keep_fn,
    lemma_filter_elems_in_original, lemma_filter_keeps_distinct_ids};
use crate::player::{PLAYER_START_X, PLAYER_START_Y, PlayerState, moved_clamped};
use crate::timer::{Timer, TimerModel};
use vstd::prelude::*;

verus! {

/// Duration of the pre-round countdown, in milliseconds.
pub const COUNTDOWN_DURATION_MS: u32 = 4000;

/// Which update logic is active: the single source of truth for the phase.
#[derive(Clone, Copy, PartialEq, Eq, Structural, Debug)]
pub enum RoundPhase {
    Menu,
    Countdown,
    Playing,
    GameOver,
}

/// The discrete label shown while the countdown runs.
#[derive(Clone, Copy, PartialEq, Eq, Structural, Debug)]
pub enum CountdownLabel {
    Three,
    Two,
    One,
    Go,
    Blank,
}

impl CountdownLabel {
    /// The text each label displays.
    pub fn text(self) -> (r: &'static str)
        ensures
            r@ == label_text(self),
    {
        match self {
            CountdownLabel::Three => "3",
            CountdownLabel::Two => "2",
            CountdownLabel::One => "1",
            CountdownLabel::Go => "GO!",
            CountdownLabel::Blank => "",
        }
    }
}

/// The characters [`CountdownLabel::text`] returns.
pub open spec fn label_text(l: CountdownLabel) -> Seq<char> {
    match l {
        CountdownLabel::Three => "3"@,
        CountdownLabel::Two => "2"@,
        CountdownLabel::One => "1"@,
        CountdownLabel::Go => "GO!"@,
        CountdownLabel::Blank => ""@,
    }
}

/// The label the countdown clock shows: the remaining time rounded up to
/// whole seconds, mapped `4 -> "3"`, `3 -> "2"`, `2 -> "1"`, `1 -> "GO!"`,
/// and blank otherwise — in particular blank at exactly zero remaining.
pub open spec fn countdown_label_of(clock: TimerModel) -> CountdownLabel {
    let whole = (clock.remaining() + 999) / 1000;
    if whole == 4 {
        CountdownLabel::Three
    } else if whole == 3 {
        CountdownLabel::Two
    } else if whole == 2 {
        CountdownLabel::One
    } else if whole == 1 {
        CountdownLabel::Go
    } else {
        CountdownLabel::Blank
    }
}

/// Mathematical abstraction of the machine: the current phase together
/// with exactly the data that phase owns.
pub enum PhaseModel {
    Menu,
    Countdown { difficulty: Difficulty, clock: TimerModel },
    Playing {
        difficulty: Difficulty,
        clock: TimerModel,
        player: Vec2Model,
        pickups: Seq<Pickup>,
        mood: Mood,
        score: int,
    },
    GameOver { score: int, mood: Mood },
}

/// Phase-scoped well-formedness: running clocks have time left and the
/// right duration, the player stays inside the arena, pickup data is sane,
/// and the score always equals the pickups collected so far.
pub open spec fn phase_wf(ph: PhaseModel) -> bool {
    match ph {
        PhaseModel::Menu => true,
        PhaseModel::Countdown { difficulty, clock } => {
            &&& clock.wf()
            &&& clock.duration == COUNTDOWN_DURATION_MS
            &&& !clock.finished
            &&& clock.elapsed < clock.duration
        },
        PhaseModel::Playing { difficulty, clock, player, pickups, mood, score } => {
            &&& clock.wf()
            &&& clock.duration == time_limit_ms(difficulty)
            &&& !clock.finished
            &&& clock.elapsed < clock.duration
            &&& Arena::standard_spec().contains(player)
            &&& forall|i: int| 0 <= i < pickups.len() ==> in_coord_range(#[trigger] pickups[i].pos@)
            &&& forall|i: int, j: int| 0 <= i < j < pickups.len() ==> pickups[i].id != pickups[j].id
            &&& 0 <= score
            &&& score + pickups.len() == pickup_count(difficulty)
            &&& pickups.len() > 0
        },
        PhaseModel::GameOver { score, mood } => 0 <= score,
    }
}

/// A tick delta handed to `advance`, clamped to the representable range:
/// negative deltas count as zero.
pub open spec fn clamped_delta(delta: int) -> int {
    if delta < 0 {
        0
    } else if delta > 0xffff_ffff {
        0xffff_ffff
    } else {
        delta
    }
}

/// A movement-input component clamped to the unit-vector scale.
pub open spec fn clamped_input(v: int) -> int {
    if v < -1000 {
        -1000
    } else if v > 1000 {
        1000
    } else {
        v
    }
}

/// The pickups a round at difficulty `d` starts with: the layout spots in
/// order, the pickup at index `i` carrying id `i`.
pub open spec fn initial_pickups(d: Difficulty) -> Seq<Pickup> {
    Seq::new(pickup_layout(d).len(), |i: int| Pickup { id: i as u32, pos: pickup_layout(d)[i] })
}

/// The state entered when a round is started: score and mood reset, a
/// fresh 4-second countdown clock.
pub open spec fn countdown_entry(d: Difficulty) -> PhaseModel {
    PhaseModel::Countdown { difficulty: d, clock: TimerModel::fresh(COUNTDOWN_DURATION_MS as int) }
}

/// The state entered when play begins: configuration derived from the
/// difficulty captured at countdown entry, a fresh round clock, the full
/// pickup layout, the player at the start position, Normal mood, score 0.
pub open spec fn playing_entry(d: Difficulty) -> PhaseModel {
    PhaseModel::Playing {
        difficulty: d,
        clock: TimerModel::fresh(time_limit_ms(d)),
        player: Vec2Model { x: PLAYER_START_X as int, y: PLAYER_START_Y as int },
        pickups: initial_pickups(d),
        mood: Mood::Normal,
        score: 0,
    }
}

/// One Playing tick: mood change first, then movement integration, then
/// clamping, then collection and scoring, then the clock tick, and last
/// the termination check — timeout or exhaustion, whichever holds, ends
/// the round on this very tick.
pub open spec fn playing_step(
    difficulty: Difficulty,
    clock: TimerModel,
    player: Vec2Model,
    pickups: Seq<Pickup>,
    mood: Mood,
    score: int,
    dt: int,
    ix: int,
    iy: int,
    mood_select: Option<Mood>,
) -> PhaseModel {
    let mood1 = match mood_select {
        Option::Some(m) => m,
        Option::None => mood,
    };
    let player1 = moved_clamped(Arena::standard_spec(), player, mood1, ix, iy, dt);
    let kept = pickups.filter(keep_fn(player1, PICKUP_RADIUS as int));
    let score1 = score + pickups.len() - kept.len();
    let clock1 = clock.ticked(dt);
    if clock1.just_fired || kept.len() == 0 {
        PhaseModel::GameOver { score: score1, mood: mood1 }
    } else {
        PhaseModel::Playing {
            difficulty,
            clock: clock1,
            player: player1,
            pickups: kept,
            mood: mood1,
            score: score1,
        }
    }
}

/// The full update rule of one `advance` call. Menu idles; GameOver is
/// frozen; Countdown ticks its clock and hands over to Playing when the
/// clock fires or the confirm trigger skips it; Playing runs
/// [`playing_step`]. Invalid inputs are clamped, never an error.
pub open spec fn machine_step(
    ph: PhaseModel,
    delta: int,
    ix: int,
    iy: int,
    mood_select: Option<Mood>,
    confirm: bool,
) -> PhaseModel {
    let dt = clamped_delta(delta);
    let cx = clamped_input(ix);
    let cy = clamped_input(iy);
    match ph {
        PhaseModel::Menu => PhaseModel::Menu,
        PhaseModel::GameOver { score, mood } => PhaseModel::GameOver { score, mood },
        PhaseModel::Countdown { difficulty, clock } => {
            if confirm {
                playing_entry(difficulty)
            } else {
                let c1 = clock.ticked(dt);
                if c1.just_fired {
                    playing_entry(difficulty)
                } else {
                    PhaseModel::Countdown { difficulty, clock: c1 }
                }
            }
        },
        PhaseModel::Playing { difficulty, clock, player, pickups, mood, score } => playing_step(
            difficulty,
            clock,
            player,
            pickups,
            mood,
            score,
            dt,
            cx,
            cy,
            mood_select,
        ),
    }
}

/// The phase label of a model state.
pub open spec fn phase_label(ph: PhaseModel) -> RoundPhase {
    match ph {
        PhaseModel::Menu => RoundPhase::Menu,
        PhaseModel::Countdown { .. } => RoundPhase::Countdown,
        PhaseModel::Playing { .. } => RoundPhase::Playing,
        PhaseModel::GameOver { .. } => RoundPhase::GameOver,
    }
}

/// The score a model state reports: zero outside a round and before play
/// begins.
pub open spec fn score_of(ph: PhaseModel) -> int {
    match ph {
        PhaseModel::Menu => 0,
        PhaseModel::Countdown { .. } => 0,
        PhaseModel::Playing { score, .. } => score,
        PhaseModel::GameOver { score, .. } => score,
    }
}

/// The mood a model state reports: Normal outside Playing and GameOver.
pub open spec fn mood_of(ph: PhaseModel) -> Mood {
    match ph {
        PhaseModel::Menu => Mood::Normal,
        PhaseModel::Countdown { .. } => Mood::Normal,
        PhaseModel::Playing { mood, .. } => mood,
        PhaseModel::GameOver { mood, .. } => mood,
    }
}

/// Entering a countdown — from the menu or from game over — always resets
/// the score to zero and the mood to Normal, whatever came before.
pub proof fn lemma_round_entry_resets(d: Difficulty)
    ensures
        score_of(countdown_entry(d)) == 0,
        mood_of(countdown_entry(d)) == Mood::Normal,
        score_of(playing_entry(d)) == 0,
        mood_of(playing_entry(d)) == Mood::Normal,
{
}

/// [`machine_step`] preserves [`phase_wf`].
pub proof fn lemma_machine_step_preserves_wf(
    ph: PhaseModel,
    delta: int,
    ix: int,
    iy: int,
    mood_select: Option<Mood>,
    confirm: bool,
)
    requires
        phase_wf(ph),
    ensures
        phase_wf(machine_step(ph, delta, ix, iy, mood_select, confirm)),
{
    let dt = clamped_delta(delta);
    match ph {
        PhaseModel::Menu => {},
        PhaseModel::GameOver { .. } => {},
        PhaseModel::Countdown { difficulty, clock } => {
            if confirm || clock.ticked(dt).just_fired {
                lemma_playing_entry_wf(difficulty);
            }
        },
        PhaseModel::Playing { difficulty, clock, player, pickups, mood, score } => {
            let mood1 = match mood_select {
                Option::Some(m) => m,
                Option::None => mood,
            };
            let cx = clamped_input(ix);
            let cy = clamped_input(iy);
            let player1 = moved_clamped(Arena::standard_spec(), player, mood1, cx, cy, dt);
            let f = keep_fn(player1, PICKUP_RADIUS as int);
            let kept = pickups.filter(f);
            pickups.lemma_filter_len(f);
            lemma_filter_elems_in_original(pickups, f);
            lemma_filter_keeps_distinct_ids(pickups, f);
            assert(forall|i: int| 0 <= i < kept.len() ==> in_coord_range(#[trigger] kept[i].pos@))
                by {
                assert forall|i: int| 0 <= i < kept.len() implies in_coord_range(
                    #[trigger] kept[i].pos@,
                ) by {
                    assert(pickups.contains(kept[i]));
                    let j = choose|j: int| 0 <= j < pickups.len() && pickups[j] == kept[i];
                    assert(in_coord_range(pickups[j].pos@));
                }
            }
        },
    }
}

/// [`playing_entry`] yields a well-formed state.
pub proof fn lemma_playing_entry_wf(d: Difficulty)
    ensures
        phase_wf(playing_entry(d)),
{
    lemma_pickup_layout_bounds(d);
    let pickups = initial_pickups(d);
    assert(forall|i: int| 0 <= i < pickups.len() ==> #[trigger] pickups[i].pos
        == pickup_layout(d)[i]);
}

/// What the driver reads back after every `advance`: everything the
/// presentation layer shows.
#[derive(Clone, Debug)]
pub struct RoundView {
    pub phase: RoundPhase,
    pub countdown_label: CountdownLabel,
    pub score: u32,
    pub time_remaining_ms: Option<u32>,
    pub mood: Mood,
    pub player_position: Option<Vec2>,
    pub collectible_positions: Vec<Vec2>,
}

/// The view is a faithful projection of the machine state: phase label,
/// score, countdown label, round time left, mood, player position and the
/// remaining pickups' positions in stored order.
pub open spec fn view_matches(ph: PhaseModel, v: RoundView) -> bool {
    &&& v.phase == phase_label(ph)
    &&& v.score as int == score_of(ph)
    &&& v.mood == mood_of(ph)
    &&& v.countdown_label == match ph {
        PhaseModel::Countdown { clock, .. } => countdown_label_of(clock),
        _ => CountdownLabel::Blank,
    }
    &&& v.time_remaining_ms == match ph {
        PhaseModel::Playing { clock, .. } => Option::Some((clock.remaining()) as u32),
        _ => Option::<u32>::None,
    }
    &&& v.player_position == match ph {
        PhaseModel::Countdown { .. } => Option::Some(
            Vec2 { x: PLAYER_START_X, y: PLAYER_START_Y },
        ),
        PhaseModel::Playing { player, .. } => Option::Some(
            Vec2 { x: player.x as i64, y: player.y as i64 },
        ),
        _ => Option::<Vec2>::None,
    }
    &&& v.collectible_positions@ == match ph {
        PhaseModel::Playing { pickups, .. } => pickups.map_values(|pk: Pickup| pk.pos),
        _ => Seq::<Vec2>::empty(),
    }
}

/// The state a [`RoundStateMachine`] is in, each variant owning exactly
/// the data valid for its phase.
enum PhaseState {
    Menu,
    Countdown { difficulty: Difficulty, clock: Timer },
    Playing {
        difficulty: Difficulty,
        clock: Timer,
        player: PlayerState,
        pickups: CollectibleSet,
        mood: Mood,
        score: u32,
    },
    GameOver { score: u32, mood: Mood },
}

impl View for PhaseState {
    type V = PhaseModel;

    closed spec fn view(&self) -> PhaseModel {
        match self {
            PhaseState::Menu => PhaseModel::Menu,
            PhaseState::Countdown { difficulty, clock } => PhaseModel::Countdown {
                difficulty: *difficulty,
                clock: clock@,
            },
            PhaseState::Playing { difficulty, clock, player, pickups, mood, score } =>
                PhaseModel::Playing {
                difficulty: *difficulty,
                clock: clock@,
                player: player.position@,
                pickups: pickups@,
                mood: *mood,
                score: *score as int,
            },
            PhaseState::GameOver { score, mood } => PhaseModel::GameOver {
                score: *score as int,
                mood: *mood,
            },
        }
    }
}

/// Sole owner and sole mutator of all round data. External callers read
/// the current phase, score and time only through [`RoundView`] and write
/// only through the trigger methods and [`RoundStateMachine::advance`].
pub struct RoundStateMachine {
    state: PhaseState,
}

impl View for RoundStateMachine {
    type V = PhaseModel;

    closed spec fn view(&self) -> PhaseModel {
        self.state@
    }
}

impl RoundStateMachine {
    /// The machine's invariant, established by [`RoundStateMachine::new`]
    /// and preserved by every method.
    pub open spec fn wf(&self) -> bool {
        phase_wf(self@)
    }

    /// A fresh machine, idle in the menu.
    pub fn new() -> (m: RoundStateMachine)
        ensures
            m@ == PhaseModel::Menu,
            m.wf(),
    {
        RoundStateMachine { state: PhaseState::Menu }
    }

    /// Start a round at the given difficulty. Valid from Menu or GameOver:
    /// the machine enters Countdown with score and mood reset; from any
    /// other phase the call is a no-op.
    pub fn start_round(&mut self, difficulty: Difficulty)
        requires
            old(self).wf(),
        ensures
            final(self)@ == match old(self)@ {
                PhaseModel::Menu => countdown_entry(difficulty),
                PhaseModel::GameOver { .. } => countdown_entry(difficulty),
                _ => old(self)@,
            },
            final(self).wf(),
    {
        let allowed = match &self.state {
            PhaseState::Menu => true,
            PhaseState::GameOver { .. } => true,
            _ => false,
        };
        if allowed {
            self.state = PhaseState::Countdown {
                difficulty,
                clock: Timer::new(COUNTDOWN_DURATION_MS),
            };
        }
    }

    /// Replay: start a new round from GameOver, capturing a possibly
    /// updated difficulty. A no-op in every other phase.
    pub fn replay(&mut self, difficulty: Difficulty)
        requires
            old(self).wf(),
        ensures
            final(self)@ == match old(self)@ {
                PhaseModel::GameOver { .. } => countdown_entry(difficulty),
                _ => old(self)@,
            },
            final(self).wf(),
    {
        let allowed = match &self.state {
            PhaseState::GameOver { .. } => true,
            _ => false,
        };
        if allowed {
            self.state = PhaseState::Countdown {
                difficulty,
                clock: Timer::new(COUNTDOWN_DURATION_MS),
            };
        }
    }

    /// Return to the menu from GameOver, releasing all round data. A
    /// no-op in every other phase.
    pub fn return_to_menu(&mut self)
        requires
            old(self).wf(),
        ensures
            final(self)@ == match old(self)@ {
                PhaseModel::GameOver { .. } => PhaseModel::Menu,
                _ => old(self)@,
            },
            final(self).wf(),
    {
        let allowed = match &self.state {
            PhaseState::GameOver { .. } => true,
            _ => false,
        };
        if allowed {
            self.state = PhaseState::Menu;
        }
    }

    /// The current phase label.
    pub fn phase(&self) -> (p: RoundPhase)
        ensures
            p == phase_label(self@),
    {
        match &self.state {
            PhaseState::Menu => RoundPhase::Menu,
            PhaseState::Countdown { .. } => RoundPhase::Countdown,
            PhaseState::Playing { .. } => RoundPhase::Playing,
            PhaseState::GameOver { .. } => RoundPhase::GameOver,
        }
    }

    /// The current score.
    pub fn score(&self) -> (s: u32)
        ensures
            s as int == score_of(self@),
    {
        match &self.state {
            PhaseState::Menu => 0,
            PhaseState::Countdown { .. } => 0,
            PhaseState::Playing { score, .. } => *score,
            PhaseState::GameOver { score, .. } => *score,
        }
    }

    /// A view of the current state, without advancing time.
    pub fn current_view(&self) -> (v: RoundView)
        requires
            self.wf(),
        ensures
            view_matches(self@, v),
    {
        match &self.state {
            PhaseState::Menu => RoundView {
                phase: RoundPhase::Menu,
                countdown_label: CountdownLabel::Blank,
                score: 0,
                time_remaining_ms: Option::None,
                mood: Mood::Normal,
                player_position: Option::None,
                collectible_positions: Vec::new(),
            },
            PhaseState::Countdown { clock, .. } => RoundView {
                phase: RoundPhase::Countdown,
                countdown_label: countdown_label_now(clock),
                score: 0,
                time_remaining_ms: Option::None,
                mood: Mood::Normal,
                player_position: Option::Some(Vec2 { x: PLAYER_START_X, y: PLAYER_START_Y }),
                collectible_positions: Vec::new(),
            },
            PhaseState::Playing { clock, player, pickups, mood, score, .. } => RoundView {
                phase: RoundPhase::Playing,
                countdown_label: CountdownLabel::Blank,
                score: *score,
                time_remaining_ms: Option::Some(clock.remaining_ms()),
                mood: *mood,
                player_position: Option::Some(player.position),
                collectible_positions: pickups.positions(),
            },
            PhaseState::GameOver { score, mood } => RoundView {
                phase: RoundPhase::GameOver,
                countdown_label: CountdownLabel::Blank,
                score: *score,
                time_remaining_ms: Option::None,
                mood: *mood,
                player_position: Option::None,
                collectible_positions: Vec::new(),
            },
        }
    }

    /// One discrete time step. `delta_ms` is the wall-clock time since the
    /// previous call (negative values count as zero); `movement_input` is
    /// the raw movement vector scaled so a unit vector has length 1000
    /// (components are clamped to that range); `mood_select` is an
    /// optional mood-change event; `confirm` skips the countdown. The
    /// `cancel` trigger is quit: process termination is the driver's
    /// responsibility, so the machine's result never depends on it.
    ///
    /// Returns the view of the state after the step.
    #[allow(unused_variables)]
    pub fn advance(
        &mut self,
        delta_ms: i64,
        movement_input: Vec2,
        mood_select: Option<Mood>,
        confirm: bool,
        cancel: bool,
    ) -> (v: RoundView)
        requires
            old(self).wf(),
        ensures
            final(self)@ == machine_step(
                old(self)@,
                delta_ms as int,
                movement_input.x as int,
                movement_input.y as int,
                mood_select,
                confirm,
            ),
            final(self).wf(),
            view_matches(final(self)@, v),
    {
        let dt: u32 = clamp_delta(delta_ms);
        let ix: i64 = clamp_input(movement_input.x);
        let iy: i64 = clamp_input(movement_input.y);
        let mut st = PhaseState::Menu;
        core::mem::swap(&mut st, &mut self.state);
        let next = match st {
            PhaseState::Menu => PhaseState::Menu,
            PhaseState::GameOver { score, mood } => PhaseState::GameOver { score, mood },
            PhaseState::Countdown { difficulty, mut clock } => {
                if confirm {
                    Self::enter_playing(difficulty)
                } else {
                    clock.tick(dt);
                    if clock.just_finished() {
                        Self::enter_playing(difficulty)
                    } else {
                        PhaseState::Countdown { difficulty, clock }
                    }
                }
            },
            PhaseState::Playing { difficulty, mut clock, mut player, mut pickups, mood, score } => {
                let mood1 = match mood_select {
                    Option::Some(m) => m,
                    Option::None => mood,
                };
                let arena = Arena::standard();
                player.apply_movement(&arena, mood1, Vec2 { x: ix, y: iy }, dt);
                proof {
                    lemma_pickup_layout_bounds(difficulty);
                }
                let collected = pickups.collect_near(player.position, PICKUP_RADIUS);
                let score1 = score + (collected as u32);
                clock.tick(dt);
                if clock.just_finished() || pickups.is_exhausted() {
                    PhaseState::GameOver { score: score1, mood: mood1 }
                } else {
                    PhaseState::Playing {
                        difficulty,
                        clock,
                        player,
                        pickups,
                        mood: mood1,
                        score: score1,
                    }
                }
            },
        };
        self.state = next;
        proof {
            lemma_machine_step_preserves_wf(
                old(self)@,
                delta_ms as int,
                movement_input.x as int,
                movement_input.y as int,
                mood_select,
                confirm,
            );
        }
        self.current_view()
    }

    /// Build the state play begins in.
    fn enter_playing(difficulty: Difficulty) -> (st: PhaseState)
        ensures
            st@ == playing_entry(difficulty),
            phase_wf(st@),
    {
        let config = RoundConfig::for_difficulty(difficulty);
        let clock = Timer::new(config.time_limit_ms);
        proof {
            lemma_pickup_layout_bounds(difficulty);
        }
        let pickups = CollectibleSet::from_positions(&config.pickup_positions);
        let player = PlayerState::at_start();
        proof {
            assert(pickups@ =~= initial_pickups(difficulty));
            lemma_playing_entry_wf(difficulty);
        }
        PhaseState::Playing { difficulty, clock, player, pickups, mood: Mood::Normal, score: 0 }
    }
}

/// Clamp a tick delta to `[0, u32::MAX]` milliseconds.
fn clamp_delta(delta_ms: i64) -> (dt: u32)
    ensures
        dt as int == clamped_delta(delta_ms as int),
{
    if delta_ms < 0 {
        0
    } else if delta_ms > 0xffff_ffff {
        u32::MAX
    } else {
        delta_ms as u32
    }
}

/// Clamp a movement-input component to `[-1000, 1000]`.
fn clamp_input(v: i64) -> (c: i64)
    ensures
        c as int == clamped_input(v as int),
        -1000 <= c <= 1000,
{
    if v < -1000 {
        -1000
    } else if v > 1000 {
        1000
    } else {
        v
    }
}

/// The label a countdown clock currently shows. The mapping follows the
/// remaining time rounded up to whole seconds, so a clock sitting at
/// exactly zero remaining without having finished shows a blank label,
/// not "GO!".
pub fn countdown_label_now(clock: &Timer) -> (l: CountdownLabel)
    requires
        clock@.wf(),
    ensures
        l == countdown_label_of(clock@),
{
    let remaining = clock.remaining_ms();
    let whole: u64 = ((remaining as u64) + 999) / 1000;
    if whole == 4 {
        CountdownLabel::Three
    } else if whole == 3 {
        CountdownLabel::Two
    } else if whole == 2 {
        CountdownLabel::One
    } else if whole == 1 {
        CountdownLabel::Go
    } else {
        CountdownLabel::Blank
    }
}

} // verus!
