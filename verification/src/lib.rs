//! Core of a small timed arcade game: a player moves through a bounded arena
//! under a selectable "mood" that changes the movement physics, collecting
//! scattered pickups before a countdown expires, and a score is reported at
//! round end.
//!
//! The crate owns the round lifecycle (`Menu -> Countdown -> Playing ->
//! GameOver`), the per-round configuration derived from a difficulty setting,
//! the mood-dependent movement model, pickup collection and scoring, and the
//! round-termination policy. Presentation (rendering, input devices, audio)
//! is left to an external driver that calls [`machine::RoundStateMachine::advance`]
//! once per discrete time step.
//!
//! All quantities are exact integers: time is measured in milliseconds and
//! space in milliunits (one thousandth of a world unit), so every update is
//! deterministic and free of rounding surprises.

pub mod arena;
pub mod config;
pub mod geom;
pub mod laws;
pub mod machine;
pub mod mood;
pub mod pickups;
pub mod player;
pub mod timer;
