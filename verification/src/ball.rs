//! The ball: a position and a velocity whose components never change magnitude,
//! only sign. One step adds the velocity to the position and then reflects the
//! vertical component off the top and bottom edges; reflecting off a paddle
//! flips the horizontal component; a reset recenters the ball with the initial
//! velocity. Crossing the left or right edge is scoring, which the match state
//! handles, not the ball.

use vstd::prelude::*;

use crate::config::{
    BALL_SIZE, BALL_SPEED_X, BALL_SPEED_Y, PADDLE_HEIGHT, PADDLE_WIDTH, SCREEN_HEIGHT,
    SCREEN_WIDTH,
};
use crate::paddle::{Paddle, PaddleModel};

verus! {

/// Mathematical model of the ball: top-left corner and velocity.
pub ghost struct BallModel {
    pub x: int,
    pub y: int,
    pub vx: int,
    pub vy: int,
}

/// The state every ball starts from and returns to after a score: centered on
/// the screen, moving with the initial velocity.
pub open spec fn ball_start() -> BallModel {
    BallModel {
        x: SCREEN_WIDTH as int / 2,
        y: SCREEN_HEIGHT as int / 2,
        vx: BALL_SPEED_X as int,
        vy: BALL_SPEED_Y as int,
    }
}

/// Whether a ball at vertical position `y` lies on or past the top or bottom
/// edge, so that its vertical velocity reflects.
pub open spec fn hits_edge(y: int) -> bool {
    y <= 0 || y >= SCREEN_HEIGHT - BALL_SIZE
}

/// The ball after one motion step: the velocity is added to the position, and
/// the vertical velocity flips exactly when the moved position lies on or past
/// a horizontal edge. The position itself is not clamped.
pub open spec fn ball_step(b: BallModel) -> BallModel {
    let moved = BallModel { x: b.x + b.vx, y: b.y + b.vy, vx: b.vx, vy: b.vy };
    if hits_edge(moved.y) {
        BallModel { x: moved.x, y: moved.y, vx: moved.vx, vy: -moved.vy }
    } else {
        moved
    }
}

/// Whether the ball counts as touching the paddle: at or behind the paddle's
/// far edge, and within its vertical span. There is no directionality filter
/// and no rising-edge guard: a ball that stays in this region flips its
/// horizontal velocity on every step it remains there.
pub open spec fn touches_paddle(b: BallModel, p: PaddleModel) -> bool {
    b.x <= p.x + PADDLE_WIDTH && p.y <= b.y && b.y <= p.y + PADDLE_HEIGHT
}

/// The ball after one collision check against one paddle: the horizontal
/// velocity flips if the ball touches the paddle, and nothing else changes.
pub open spec fn ball_collide(b: BallModel, p: PaddleModel) -> BallModel {
    if touches_paddle(b, p) {
        BallModel { x: b.x, y: b.y, vx: -b.vx, vy: b.vy }
    } else {
        b
    }
}

/// The ball after a reset: the start state, whatever the ball held before.
pub open spec fn ball_reset(b: BallModel) -> BallModel {
    ball_start()
}

/// Law: in one motion step the vertical velocity flips exactly when the moved
/// position lies on or past a horizontal edge, and is unchanged otherwise; the
/// position always advances by the old velocity, and the horizontal velocity
/// never changes.
pub proof fn lemma_ball_step_reflects_once(b: BallModel)
    ensures
        ball_step(b).x == b.x + b.vx,
        ball_step(b).y == b.y + b.vy,
        ball_step(b).vx == b.vx,
        hits_edge(b.y + b.vy) ==> ball_step(b).vy == -b.vy,
        !hits_edge(b.y + b.vy) ==> ball_step(b).vy == b.vy,
{
}

/// Law: resetting is idempotent. A reset yields the start state whatever ball
/// it is applied to, so a second reset yields exactly the state of the first.
pub proof fn lemma_ball_reset_idempotent(b: BallModel)
    ensures
        ball_reset(ball_reset(b)) == ball_reset(b),
        ball_reset(b) == ball_start(),
{
}

/// Law: a collision check flips the horizontal velocity exactly when the ball
/// is at or behind the paddle's far edge and within its vertical span; a ball
/// outside that span is left unchanged whatever its horizontal position; and a
/// collision check never moves the ball or touches its vertical velocity.
pub proof fn lemma_collision_flips_horizontal(b: BallModel, p: PaddleModel)
    ensures
        touches_paddle(b, p) ==> ball_collide(b, p).vx == -b.vx,
        !touches_paddle(b, p) ==> ball_collide(b, p) == b,
        !(p.y <= b.y && b.y <= p.y + PADDLE_HEIGHT) ==> ball_collide(b, p) == b,
        ball_collide(b, p).x == b.x,
        ball_collide(b, p).y == b.y,
        ball_collide(b, p).vy == b.vy,
{
}

pub struct Ball {
    pub x: i32,
    pub y: i32,
    pub vx: i32,
    pub vy: i32,
}

impl View for Ball {
    type V = BallModel;

    open spec fn view(&self) -> BallModel {
        BallModel { x: self.x as int, y: self.y as int, vx: self.vx as int, vy: self.vy as int }
    }
}

impl Ball {
    /// A new ball in the start state.
    pub fn new() -> (b: Ball)
        ensures
            b@ == ball_start(),
    {
        Ball {
            x: SCREEN_WIDTH / 2,
            y: SCREEN_HEIGHT / 2,
            vx: BALL_SPEED_X,
            vy: BALL_SPEED_Y,
        }
    }

    /// One motion step: move by the velocity, then reflect the vertical
    /// velocity off the top and bottom edges.
    pub fn update(&mut self)
        requires
            i32::MIN <= old(self).x + old(self).vx <= i32::MAX,
            i32::MIN <= old(self).y + old(self).vy <= i32::MAX,
            old(self).vy > i32::MIN,
        ensures
            final(self)@ == ball_step(old(self)@),
    {
        self.x = self.x + self.vx;
        self.y = self.y + self.vy;
        if self.y <= 0 || self.y >= SCREEN_HEIGHT - BALL_SIZE {
            self.vy = -self.vy;
        }
    }

    /// One collision check against one paddle: flip the horizontal velocity if
    /// the ball touches the paddle.
    pub fn check_collision(&mut self, paddle: &Paddle)
        requires
            old(self).vx > i32::MIN,
            paddle.x <= i32::MAX - PADDLE_WIDTH,
            paddle.y <= i32::MAX - PADDLE_HEIGHT,
        ensures
            final(self)@ == ball_collide(old(self)@, paddle@),
    {
        if self.x <= paddle.x + PADDLE_WIDTH && self.y >= paddle.y && self.y <= paddle.y
            + PADDLE_HEIGHT {
            self.vx = -self.vx;
        }
    }

    /// Recenter the ball with the initial velocity, unconditionally.
    pub fn reset(&mut self)
        ensures
            final(self)@ == ball_reset(old(self)@),
            final(self)@ == ball_start(),
    {
        self.x = SCREEN_WIDTH / 2;
        self.y = SCREEN_HEIGHT / 2;
        self.vx = BALL_SPEED_X;
        self.vy = BALL_SPEED_Y;
    }
}

} // verus!
