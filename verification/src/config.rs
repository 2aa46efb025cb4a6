//! Fixed configuration of the playing field, set once and never changed at
//! runtime. All lengths and speeds are whole numbers of pixels, so every
//! position the simulation can reach is an exact integer.

use vstd::prelude::*;

verus! {

pub const PADDLE_WIDTH: i32 = 20;

pub const PADDLE_HEIGHT: i32 = 100;

/// How far a paddle moves in one step.
pub const PADDLE_SPEED: i32 = 6;

pub const BALL_SIZE: i32 = 20;

/// Magnitude of the ball's horizontal velocity; only its sign ever changes.
pub const BALL_SPEED_X: i32 = 4;

/// Magnitude of the ball's vertical velocity; only its sign ever changes.
pub const BALL_SPEED_Y: i32 = 4;

pub const SCREEN_WIDTH: i32 = 800;

pub const SCREEN_HEIGHT: i32 = 600;

} // verus!
