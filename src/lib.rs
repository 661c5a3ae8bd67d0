//! A two-paddle Pong simulation: entity state, collision tests, integration,
//! the scripted opponent and the per-frame round logic.
//!
//! Everything runs on fixed-point integers. A position is measured in
//! millionths of a playfield unit, a velocity in thousandths of a unit per
//! second, and elapsed time in whole milliseconds, so that advancing a
//! position by `velocity * elapsed` is exact.
use vstd::prelude::*;

pub mod ai;
pub mod collision;
pub mod entity;
pub mod random;
pub mod round;
pub mod vector;

verus! {

/// Position sub-units in one playfield unit.
pub const POSITION_SCALE: i64 = 1_000_000;

/// Velocity sub-units (per second) in one playfield unit per second.
pub const VELOCITY_SCALE: i64 = 1_000;

/// Playfield width, in units.
pub const WIDTH: u32 = 800;

/// Playfield height, in units.
pub const HEIGHT: u32 = 800;

/// Paddle speed, in velocity sub-units.
pub const BAT_SPEED: i64 = 300_000;

/// Ball speed, in velocity sub-units.
pub const BALL_SPEED: i64 = 200_000;

pub const PADDLE_WIDTH: u32 = 100;

pub const PADDLE_HEIGHT: u32 = 20;

pub const BALL_SIZE: u32 = 10;

} // verus!
