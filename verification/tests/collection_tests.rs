use fever_dream::config::{Difficulty, RoundConfig};
use fever_dream::geom::Vec2;
use fever_dream::pickups::{CollectibleSet, PICKUP_RADIUS};

#[test]
fn pickup_at_player_position_is_collected() {
    // The canonical layout has a pickup at the origin; a player standing
    // there collects exactly that one.
    let cfg = RoundConfig::for_difficulty(Difficulty::Normal);
    let mut set = CollectibleSet::from_positions(&cfg.pickup_positions);
    assert_eq!(set.len(), 7);
    let collected = set.collect_near(Vec2::new(0, 0), PICKUP_RADIUS);
    assert_eq!(collected, 1);
    assert_eq!(set.len(), 6);
    assert!(!set.is_exhausted());
    // A second pass at the same spot finds nothing: removal is permanent.
    let collected = set.collect_near(Vec2::new(0, 0), PICKUP_RADIUS);
    assert_eq!(collected, 0);
    assert_eq!(set.len(), 6);
}

#[test]
fn radius_boundary_is_inclusive() {
    let positions = vec![Vec2::new(26_000, 0), Vec2::new(26_001, 0)];
    let mut set = CollectibleSet::from_positions(&positions);
    let collected = set.collect_near(Vec2::new(0, 0), PICKUP_RADIUS);
    assert_eq!(collected, 1);
    let remaining = set.positions();
    assert_eq!(remaining, vec![Vec2::new(26_001, 0)]);
}

#[test]
fn co_located_pickups_collect_together() {
    let positions = vec![
        Vec2::new(0, 0),
        Vec2::new(10_000, 10_000),
        Vec2::new(500_000, 0),
    ];
    let mut set = CollectibleSet::from_positions(&positions);
    let collected = set.collect_near(Vec2::new(0, 0), PICKUP_RADIUS);
    assert_eq!(collected, 2);
    assert_eq!(set.len(), 1);
    let collected = set.collect_near(Vec2::new(500_000, 0), PICKUP_RADIUS);
    assert_eq!(collected, 1);
    assert!(set.is_exhausted());
}

#[test]
fn size_never_grows_across_passes() {
    let cfg = RoundConfig::for_difficulty(Difficulty::Hard);
    let mut set = CollectibleSet::from_positions(&cfg.pickup_positions);
    let mut last = set.len();
    let spots = [
        Vec2::new(0, 0),
        Vec2::new(-400_000, 210_000),
        Vec2::new(0, 0),
        Vec2::new(280_000, -20_000),
        Vec2::new(123_456, 78_900),
    ];
    for p in spots {
        set.collect_near(p, PICKUP_RADIUS);
        assert!(set.len() <= last);
        last = set.len();
    }
}

#[test]
fn surviving_positions_keep_their_order() {
    let cfg = RoundConfig::for_difficulty(Difficulty::Normal);
    let mut set = CollectibleSet::from_positions(&cfg.pickup_positions);
    // Remove the origin pickup (index 6); the first six keep their order.
    set.collect_near(Vec2::new(0, 0), PICKUP_RADIUS);
    let survivors = set.positions();
    assert_eq!(survivors[..], cfg.pickup_positions[..6]);
}

#[test]
fn empty_set_reports_exhausted() {
    let positions: Vec<Vec2> = vec![];
    let mut set = CollectibleSet::from_positions(&positions);
    assert!(set.is_exhausted());
    assert_eq!(set.collect_near(Vec2::new(0, 0), PICKUP_RADIUS), 0);
}
