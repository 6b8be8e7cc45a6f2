use fever_dream::timer::Timer;

#[test]
fn fires_exactly_once_on_the_reaching_tick() {
    let mut t = Timer::new(1000);
    t.tick(400);
    assert!(!t.just_finished());
    assert!(!t.finished());
    assert_eq!(t.elapsed_ms(), 400);
    t.tick(600);
    assert!(t.just_finished());
    assert!(t.finished());
    assert_eq!(t.elapsed_ms(), 1000);
    t.tick(100);
    assert!(!t.just_finished());
    assert!(t.finished());
    assert_eq!(t.elapsed_ms(), 1000);
}

#[test]
fn fires_once_even_when_overshooting() {
    let mut t = Timer::new(1000);
    t.tick(5000);
    assert!(t.just_finished());
    assert_eq!(t.elapsed_ms(), 1000);
    assert_eq!(t.remaining_ms(), 0);
    t.tick(5000);
    assert!(!t.just_finished());
    t.tick(0);
    assert!(!t.just_finished());
}

#[test]
fn remaining_saturates_at_zero() {
    let mut t = Timer::new(300);
    assert_eq!(t.remaining_ms(), 300);
    t.tick(200);
    assert_eq!(t.remaining_ms(), 100);
    t.tick(200);
    assert_eq!(t.remaining_ms(), 0);
    assert_eq!(t.duration_ms(), 300);
}

#[test]
fn reset_allows_a_second_single_fire() {
    let mut t = Timer::new(500);
    t.tick(500);
    assert!(t.just_finished());
    t.reset();
    assert!(!t.finished());
    assert!(!t.just_finished());
    assert_eq!(t.elapsed_ms(), 0);
    t.tick(499);
    assert!(!t.just_finished());
    t.tick(1);
    assert!(t.just_finished());
    t.tick(1);
    assert!(!t.just_finished());
}

#[test]
fn zero_duration_fires_on_first_tick() {
    let mut t = Timer::new(0);
    assert!(!t.finished());
    t.tick(0);
    assert!(t.just_finished());
    t.tick(0);
    assert!(!t.just_finished());
}
