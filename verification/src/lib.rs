//! Rules of a turn-based pursuit game on a plane, and the bookkeeping of a
//! rollout planner that plays it.
//!
//! A player herds humans away from zombies. Each turn the zombies go for the
//! nearest living target, the player moves, zombies near the player die, and
//! a zombie that caught a human and survived eats it. Kills are scored by the
//! humans that are left, and more so the more zombies die in one turn.
//!
//! Coordinates, distances, radii and angles are double-precision numbers. The
//! library holds each of them by its bit pattern, as a `u64`, copies them and
//! orders them, and never computes with them: the caller does the arithmetic
//! and hands the results in. So a turn comes in parts, and the caller measures
//! before each part; what the parts make of the measures is proved here.
//!
//! - `number`: the order of numbers held by their bit patterns.
//! - `point`, `entity`: points and actors.
//! - `pursuit`: how a zombie picks its target.
//! - `score`: what a kill is worth.
//! - `state`: what a turn makes of a game, as plain values.
//! - `game`: a game and the parts of a turn.
//! - `solver`: the planner.

pub mod number;
pub mod point;
pub mod entity;
pub mod pursuit;
pub mod score;
pub mod state;
pub mod game;
pub mod solver;
