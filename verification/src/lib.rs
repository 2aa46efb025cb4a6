//! A minimal two-paddle ball game: one paddle driven by player input, one by a
//! reactive tracking rule, a bouncing ball, and a point tally. This crate holds
//! the simulation core — paddle movement, ball motion and reflection, collision
//! and scoring — with contracts that pin each step down exactly. Rendering and
//! input polling live outside the crate and exchange plain values with it.

pub mod ball;
pub mod config;
pub mod game;
pub mod paddle;
