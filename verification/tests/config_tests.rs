use fever_dream::config::{Difficulty, GameConfig, RoundConfig};

#[test]
fn difficulty_table_is_exact() {
    let easy = RoundConfig::for_difficulty(Difficulty::Easy);
    assert_eq!(easy.time_limit_ms, 60_000);
    assert_eq!(easy.pickup_positions.len(), 5);

    let normal = RoundConfig::for_difficulty(Difficulty::Normal);
    assert_eq!(normal.time_limit_ms, 45_000);
    assert_eq!(normal.pickup_positions.len(), 7);

    let hard = RoundConfig::for_difficulty(Difficulty::Hard);
    assert_eq!(hard.time_limit_ms, 30_000);
    assert_eq!(hard.pickup_positions.len(), 11);
}

#[test]
fn layouts_nest_by_difficulty() {
    let easy = RoundConfig::for_difficulty(Difficulty::Easy);
    let normal = RoundConfig::for_difficulty(Difficulty::Normal);
    let hard = RoundConfig::for_difficulty(Difficulty::Hard);
    assert_eq!(easy.pickup_positions[..], normal.pickup_positions[..5]);
    assert_eq!(normal.pickup_positions[..], hard.pickup_positions[..7]);
}

#[test]
fn layout_is_deterministic() {
    let a = RoundConfig::for_difficulty(Difficulty::Hard);
    let b = RoundConfig::for_difficulty(Difficulty::Hard);
    assert_eq!(a.pickup_positions, b.pickup_positions);
    assert_eq!(a.pickup_positions[6], fever_dream::geom::Vec2 { x: 0, y: 0 });
}

#[test]
fn difficulty_labels() {
    assert_eq!(Difficulty::Easy.label(), "Easy");
    assert_eq!(Difficulty::Normal.label(), "Normal");
    assert_eq!(Difficulty::Hard.label(), "Hard");
}

#[test]
fn default_selection_is_normal_with_empty_name() {
    let cfg = GameConfig::default();
    assert_eq!(cfg.player_name, "");
    assert_eq!(cfg.difficulty, Difficulty::Normal);
}
