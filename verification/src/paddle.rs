//! A paddle: a rectangle whose `x` is fixed after construction and whose `y`
//! moves up or down in fixed steps. A move that would cross the playing bounds
//! is refused outright rather than clamped to the boundary, so the paddle can
//! come to rest short of the exact edge by up to one step.

use vstd::prelude::*;

use crate::config::{PADDLE_HEIGHT, PADDLE_SPEED, SCREEN_HEIGHT};

verus! {

/// Mathematical model of a paddle: its top-left corner.
pub ghost struct PaddleModel {
    pub x: int,
    pub y: int,
}

/// The paddle after one upward move: `y` decreases by `PADDLE_SPEED` only if
/// `y > 0`; otherwise the move is refused and nothing changes.
pub open spec fn paddle_up(p: PaddleModel) -> PaddleModel {
    if p.y > 0 {
        PaddleModel { x: p.x, y: p.y - PADDLE_SPEED }
    } else {
        p
    }
}

/// The paddle after one downward move: `y` increases by `PADDLE_SPEED` only if
/// `y < SCREEN_HEIGHT - PADDLE_HEIGHT`; otherwise nothing changes.
pub open spec fn paddle_down(p: PaddleModel) -> PaddleModel {
    if p.y < SCREEN_HEIGHT - PADDLE_HEIGHT {
        PaddleModel { x: p.x, y: p.y + PADDLE_SPEED }
    } else {
        p
    }
}

/// The bounds a paddle never leaves: within one step of the playing range
/// `[0, SCREEN_HEIGHT - PADDLE_HEIGHT]`. The range itself is not an invariant,
/// because a move near an edge is refused only once it has crossed, so a paddle
/// can overshoot either end by less than one step.
pub open spec fn paddle_y_in_bounds(y: int) -> bool {
    -PADDLE_SPEED < y && y < SCREEN_HEIGHT - PADDLE_HEIGHT + PADDLE_SPEED
}

/// One movement command for a paddle.
pub enum PaddleMove {
    Up,
    Down,
}

/// The paddle after one command.
pub open spec fn paddle_apply(p: PaddleModel, m: PaddleMove) -> PaddleModel {
    match m {
        PaddleMove::Up => paddle_up(p),
        PaddleMove::Down => paddle_down(p),
    }
}

/// The paddle after a sequence of commands, applied in order.
pub open spec fn paddle_apply_all(p: PaddleModel, moves: Seq<PaddleMove>) -> PaddleModel
    decreases moves.len(),
{
    if moves.len() == 0 {
        p
    } else {
        paddle_apply_all(paddle_apply(p, moves[0]), moves.subrange(1, moves.len() as int))
    }
}

/// Law: after any sequence of up/down commands, a paddle that started within
/// one step of the playing range is still within one step of it. In particular
/// a paddle that starts inside `[0, SCREEN_HEIGHT - PADDLE_HEIGHT]` stays there
/// up to the one-step slack that refusing (rather than clamping) a crossing
/// move allows.
pub proof fn lemma_paddle_moves_keep_bounds(p: PaddleModel, moves: Seq<PaddleMove>)
    requires
        paddle_y_in_bounds(p.y),
    ensures
        paddle_y_in_bounds(paddle_apply_all(p, moves).y),
    decreases moves.len(),
{
    if moves.len() > 0 {
        lemma_paddle_moves_keep_bounds(
            paddle_apply(p, moves[0]),
            moves.subrange(1, moves.len() as int),
        );
    }
}

pub struct Paddle {
    pub x: i32,
    pub y: i32,
}

impl View for Paddle {
    type V = PaddleModel;

    open spec fn view(&self) -> PaddleModel {
        PaddleModel { x: self.x as int, y: self.y as int }
    }
}

impl Paddle {
    /// A new paddle at the given coordinates.
    pub fn new(x: i32, y: i32) -> (p: Paddle)
        ensures
            p.x == x,
            p.y == y,
    {
        Paddle { x, y }
    }

    /// Move one step up, unless already at or past the top edge.
    pub fn move_up(&mut self)
        ensures
            final(self)@ == paddle_up(old(self)@),
    {
        if self.y > 0 {
            self.y = self.y - PADDLE_SPEED;
        }
    }

    /// Move one step down, unless already at or past the bottom edge.
    pub fn move_down(&mut self)
        ensures
            final(self)@ == paddle_down(old(self)@),
    {
        if self.y < SCREEN_HEIGHT - PADDLE_HEIGHT {
            self.y = self.y + PADDLE_SPEED;
        }
    }
}

} // verus!
