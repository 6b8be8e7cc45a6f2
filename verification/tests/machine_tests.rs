use fever_dream::config::Difficulty;
use fever_dream::geom::Vec2;
use fever_dream::machine::{CountdownLabel, RoundPhase, RoundStateMachine};
use fever_dream::mood::Mood;

fn idle() -> Vec2 {
    Vec2::new(0, 0)
}

#[test]
fn countdown_runs_four_seconds_then_playing_starts_once() {
    let mut m = RoundStateMachine::new();
    assert_eq!(m.phase(), RoundPhase::Menu);
    m.start_round(Difficulty::Normal);
    assert_eq!(m.phase(), RoundPhase::Countdown);

    let mut transitions = 0;
    let mut prev = m.phase();
    for _ in 0..4 {
        let v = m.advance(1000, idle(), None, false, false);
        if prev != v.phase {
            transitions += 1;
        }
        prev = v.phase;
    }
    assert_eq!(prev, RoundPhase::Playing);
    assert_eq!(transitions, 1);
    // The round clock starts with the difficulty-derived time limit.
    let v = m.advance(0, idle(), None, false, false);
    assert_eq!(v.time_remaining_ms, Some(45_000));
    assert_eq!(v.score, 0);
    assert_eq!(v.mood, Mood::Normal);
    assert_eq!(v.collectible_positions.len(), 7);
}

#[test]
fn countdown_labels_follow_the_remaining_whole_seconds() {
    let mut m = RoundStateMachine::new();
    m.start_round(Difficulty::Easy);
    let v = m.advance(500, idle(), None, false, false);
    assert_eq!(v.countdown_label, CountdownLabel::Three);
    assert_eq!(v.countdown_label.text(), "3");
    let v = m.advance(1000, idle(), None, false, false);
    assert_eq!(v.countdown_label.text(), "2");
    let v = m.advance(1000, idle(), None, false, false);
    assert_eq!(v.countdown_label.text(), "1");
    let v = m.advance(1000, idle(), None, false, false);
    assert_eq!(v.countdown_label, CountdownLabel::Go);
    assert_eq!(v.countdown_label.text(), "GO!");
    // The tick that reaches the four-second mark enters Playing; the
    // countdown label goes blank with the transition.
    let v = m.advance(500, idle(), None, false, false);
    assert_eq!(v.phase, RoundPhase::Playing);
    assert_eq!(v.countdown_label, CountdownLabel::Blank);
    assert_eq!(v.countdown_label.text(), "");
}

#[test]
fn confirm_skips_the_countdown_immediately() {
    let mut m = RoundStateMachine::new();
    m.start_round(Difficulty::Hard);
    let v = m.advance(1, idle(), None, true, false);
    assert_eq!(v.phase, RoundPhase::Playing);
    assert_eq!(v.time_remaining_ms, Some(30_000));
    assert_eq!(v.collectible_positions.len(), 11);
    assert_eq!(v.player_position, Some(Vec2::new(-420_000, 0)));
}

#[test]
fn timeout_ends_the_round_on_the_reaching_tick() {
    let mut m = RoundStateMachine::new();
    m.start_round(Difficulty::Normal);
    m.advance(0, idle(), None, true, false);
    let v = m.advance(44_999, idle(), None, false, false);
    assert_eq!(v.phase, RoundPhase::Playing);
    assert_eq!(v.time_remaining_ms, Some(1));
    // The tick on which the remaining time reaches zero transitions to
    // GameOver on that same advance call.
    let v = m.advance(1, idle(), None, false, false);
    assert_eq!(v.phase, RoundPhase::GameOver);
    assert_eq!(v.score, 0);
    assert_eq!(v.time_remaining_ms, None);
    // Frozen thereafter: further ticking changes nothing.
    let v = m.advance(10_000, Vec2::new(1000, 0), Some(Mood::Heavy), false, false);
    assert_eq!(v.phase, RoundPhase::GameOver);
    assert_eq!(v.score, 0);
}

#[test]
fn scripted_run_collects_every_pickup_and_ends_early() {
    // Easy: five pickups, 60 s. The script steers the player onto each
    // pickup in turn; collecting the last one ends the round at once,
    // long before the clock runs out.
    let mut m = RoundStateMachine::new();
    m.start_round(Difficulty::Easy);
    m.advance(0, idle(), None, true, false);

    let script: [(i64, i64, i64, u32); 5] = [
        (1000, 71, 964, 1),
        (1200, 952, 304, 2),
        (1700, 967, 46, 3),
        (1300, -55, -720, 4),
        (2600, -975, 201, 5),
    ];
    for (i, (dt, ix, iy, want_score)) in script.into_iter().enumerate() {
        let v = m.advance(dt, Vec2::new(ix, iy), None, false, false);
        assert_eq!(v.score, want_score);
        if i < 4 {
            assert_eq!(v.phase, RoundPhase::Playing);
            assert_eq!(v.collectible_positions.len(), 4 - i);
        } else {
            assert_eq!(v.phase, RoundPhase::GameOver);
            assert!(v.collectible_positions.is_empty());
        }
    }
}

#[test]
fn first_playing_tick_can_collect_the_origin_pickup() {
    // Normal difficulty has a pickup at the origin. A single tick that
    // carries the player there collects it at once: the score becomes 1
    // and the set shrinks from seven to six.
    let mut m = RoundStateMachine::new();
    m.start_round(Difficulty::Normal);
    m.advance(0, idle(), None, true, false);
    let v = m.advance(1600, Vec2::new(938, 214), None, false, false);
    assert_eq!(v.phase, RoundPhase::Playing);
    assert_eq!(v.score, 1);
    assert_eq!(v.collectible_positions.len(), 6);
    assert!(!v.collectible_positions.contains(&Vec2::new(0, 0)));
}

#[test]
fn current_view_matches_the_advance_result() {
    let mut m = RoundStateMachine::new();
    m.start_round(Difficulty::Easy);
    let v = m.advance(750, idle(), None, false, false);
    let w = m.current_view();
    assert_eq!(v.phase, w.phase);
    assert_eq!(v.countdown_label, w.countdown_label);
    assert_eq!(v.score, w.score);
    assert_eq!(v.time_remaining_ms, w.time_remaining_ms);
    assert_eq!(v.mood, w.mood);
    assert_eq!(v.player_position, w.player_position);
    assert_eq!(v.collectible_positions, w.collectible_positions);
}

#[test]
fn movement_follows_the_mood_physics() {
    // Normal: gravity 60 units/s downwards.
    let mut m = RoundStateMachine::new();
    m.start_round(Difficulty::Normal);
    m.advance(0, idle(), None, true, false);
    let v = m.advance(100, idle(), None, false, false);
    assert_eq!(v.player_position, Some(Vec2::new(-420_000, -6_000)));

    // Heavy: stronger gravity.
    let mut m = RoundStateMachine::new();
    m.start_round(Difficulty::Normal);
    m.advance(0, idle(), None, true, false);
    let v = m.advance(100, idle(), Some(Mood::Heavy), false, false);
    assert_eq!(v.mood, Mood::Heavy);
    assert_eq!(v.player_position, Some(Vec2::new(-420_000, -14_000)));

    // Sideways: the input (1000, 0) acts as (0, -1000), and gravity pulls
    // leftwards.
    let mut m = RoundStateMachine::new();
    m.start_round(Difficulty::Normal);
    m.advance(0, idle(), None, true, false);
    let v = m.advance(100, Vec2::new(1000, 0), Some(Mood::Sideways), false, false);
    assert_eq!(v.player_position, Some(Vec2::new(-432_000, -25_200)));
}

#[test]
fn position_stays_clamped_inside_the_arena() {
    let mut m = RoundStateMachine::new();
    m.start_round(Difficulty::Normal);
    m.advance(0, idle(), None, true, false);
    let v = m.advance(10_000, Vec2::new(0, -1000), Some(Mood::Heavy), false, false);
    assert_eq!(v.player_position, Some(Vec2::new(-420_000, -272_000)));
    let v = m.advance(10_000, Vec2::new(-1000, 1000), None, false, false);
    let p = v.player_position.unwrap();
    assert_eq!(p.x, -492_000);
    assert!(p.y >= -272_000 && p.y <= 272_000);
}

#[test]
fn oversized_inputs_are_clamped_and_negative_time_is_ignored() {
    let mut a = RoundStateMachine::new();
    a.start_round(Difficulty::Normal);
    a.advance(0, idle(), None, true, false);
    let mut b = RoundStateMachine::new();
    b.start_round(Difficulty::Normal);
    b.advance(0, idle(), None, true, false);

    let va = a.advance(100, Vec2::new(5_000, -9_999), None, false, false);
    let vb = b.advance(100, Vec2::new(1_000, -1_000), None, false, false);
    assert_eq!(va.player_position, vb.player_position);

    // Negative delta counts as zero: the clock does not move.
    let before = a.advance(0, idle(), None, false, false).time_remaining_ms;
    let after = a.advance(-500, idle(), None, false, false).time_remaining_ms;
    assert_eq!(before, after);
}

#[test]
fn triggers_in_the_wrong_phase_are_no_ops() {
    let mut m = RoundStateMachine::new();
    // replay and return_to_menu do nothing in the menu.
    m.replay(Difficulty::Hard);
    assert_eq!(m.phase(), RoundPhase::Menu);
    m.return_to_menu();
    assert_eq!(m.phase(), RoundPhase::Menu);

    m.start_round(Difficulty::Normal);
    m.advance(0, idle(), None, true, false);
    // start_round during play does nothing.
    m.start_round(Difficulty::Hard);
    assert_eq!(m.phase(), RoundPhase::Playing);
    let v = m.advance(0, idle(), None, false, false);
    assert_eq!(v.time_remaining_ms, Some(45_000));
}

#[test]
fn replay_captures_the_new_difficulty() {
    let mut m = RoundStateMachine::new();
    m.start_round(Difficulty::Easy);
    m.advance(0, idle(), None, true, false);
    m.advance(60_000, idle(), None, false, false);
    assert_eq!(m.phase(), RoundPhase::GameOver);

    m.replay(Difficulty::Hard);
    assert_eq!(m.phase(), RoundPhase::Countdown);
    assert_eq!(m.score(), 0);
    let v = m.advance(0, idle(), None, true, false);
    assert_eq!(v.time_remaining_ms, Some(30_000));
    assert_eq!(v.collectible_positions.len(), 11);
}

#[test]
fn return_to_menu_releases_the_round() {
    let mut m = RoundStateMachine::new();
    m.start_round(Difficulty::Easy);
    m.advance(0, idle(), None, true, false);
    m.advance(60_000, idle(), None, false, false);
    m.return_to_menu();
    assert_eq!(m.phase(), RoundPhase::Menu);
    let v = m.advance(1000, idle(), None, false, false);
    assert_eq!(v.phase, RoundPhase::Menu);
    assert_eq!(v.score, 0);
    assert_eq!(v.player_position, None);
    assert!(v.collectible_positions.is_empty());
}

#[test]
fn cancel_trigger_never_changes_the_round() {
    let mut a = RoundStateMachine::new();
    a.start_round(Difficulty::Normal);
    let mut b = RoundStateMachine::new();
    b.start_round(Difficulty::Normal);
    let va = a.advance(700, idle(), None, false, true);
    let vb = b.advance(700, idle(), None, false, false);
    assert_eq!(va.phase, vb.phase);
    assert_eq!(va.countdown_label, vb.countdown_label);
    assert_eq!(va.score, vb.score);
}

#[test]
fn score_never_decreases_while_playing() {
    let mut m = RoundStateMachine::new();
    m.start_round(Difficulty::Easy);
    m.advance(0, idle(), None, true, false);
    let mut last = 0;
    let moves: [(i64, i64, i64); 6] = [
        (1000, 71, 964),
        (100, 0, 0),
        (1400, 817, 306),
        (300, -1000, 0),
        (700, 0, 1000),
        (400, 0, 0),
    ];
    for (dt, ix, iy) in moves {
        let v = m.advance(dt, Vec2::new(ix, iy), None, false, false);
        assert!(v.score >= last);
        last = v.score;
        if v.phase != RoundPhase::Playing {
            break;
        }
    }
    assert!(last >= 2);
}
