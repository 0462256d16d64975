//! Verified core of a two-player Pong match.
//!
//! The library models the whole simulation: two bats, a ball, score
//! keeping, and the collision rule that decides between a bounce and a
//! point. Windowing, input polling and rendering are left to a thin
//! shell around the library; the shell hands in four boolean move
//! signals per tick and reads positions and scores back out.
//!
//! All coordinates are fixed-point integers counted in tenths of a
//! unit, so the 600x500 court spans 6000x5000 coordinate steps and the
//! bounce speedup of one tenth per hit stays exact integer arithmetic.

use vstd::prelude::*;

pub mod geom;
pub mod player;
pub mod ball;
pub mod court;

verus! {

/// Court width, in tenths of a unit.
pub const SCREEN_W: i64 = 6000;

/// Court height, in tenths of a unit.
pub const SCREEN_H: i64 = 5000;

/// Bat width, in tenths of a unit.
pub const BAT_W: i64 = 100;

/// Bat height, in tenths of a unit.
pub const BAT_H: i64 = 500;

/// Largest y a bat's top edge can take while the bat stays on court.
pub const BAT_TOP_MAX: i64 = SCREEN_H - BAT_H;

/// How far a bat moves on one Up or Down command.
pub const PADDLE_STEP: i64 = 50;

/// Bound on every coordinate and velocity component the library
/// computes with; it keeps all the arithmetic far away from `i64`
/// overflow while allowing any value the simulation can reach in
/// practice.
pub const COORD_LIMIT: i64 = 1_000_000_000_000;

} // verus!
