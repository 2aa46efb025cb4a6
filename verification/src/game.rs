//! The match state: both paddles, the ball, and the two scores, advanced one
//! step per frame. A step applies the player's commands to the left paddle,
//! the reactive tracking rule to the right paddle, moves the ball, runs the
//! collision checks against the left then the right paddle, and finally the two
//! scoring checks. The match never ends: there is no maximum score.

use vstd::prelude::*;

use crate::ball::{
    ball_collide, ball_start, ball_step, Ball, BallModel,
};
use crate::config::{
    BALL_SIZE, BALL_SPEED_X, BALL_SPEED_Y, PADDLE_HEIGHT, PADDLE_SPEED, PADDLE_WIDTH,
    SCREEN_HEIGHT, SCREEN_WIDTH,
};
use crate::paddle::{
    paddle_down, paddle_up, paddle_y_in_bounds, Paddle, PaddleModel,
};

verus! {

/// Mathematical model of a whole match.
pub ghost struct GameModel {
    pub left: PaddleModel,
    pub right: PaddleModel,
    pub ball: BallModel,
    pub left_score: int,
    pub right_score: int,
}

/// The left paddle after one step's player commands: an up command, if held,
/// then a down command, if held. The two are independent; holding both applies
/// both.
pub open spec fn left_paddle_step(p: PaddleModel, up_held: bool, down_held: bool) -> PaddleModel {
    let after_up = if up_held { paddle_up(p) } else { p };
    if down_held { paddle_down(after_up) } else { after_up }
}

/// The right paddle after one step of the reactive tracking rule: move up if
/// the ball is above the paddle's top, then move down if the ball is below the
/// paddle's bottom (judged against the position the up move may just have
/// produced). The rule reads only the ball's current vertical position: no
/// memory, no prediction.
pub open spec fn opponent_step(p: PaddleModel, ball_y: int) -> PaddleModel {
    let after_up = if ball_y < p.y { paddle_up(p) } else { p };
    if ball_y > after_up.y + PADDLE_HEIGHT { paddle_down(after_up) } else { after_up }
}

/// One full simulation step, in the fixed order the match uses: left paddle by
/// the held commands, right paddle by the tracking rule (reading the ball's
/// position before it moves), ball motion, collision against the left then the
/// right paddle, then the two scoring checks. Each scoring check is its own
/// test: crossing the left edge scores for the right side and resets the ball,
/// and the right-edge check then looks at the ball as the first check left it.
pub open spec fn game_step(g: GameModel, up_held: bool, down_held: bool) -> GameModel {
    let left = left_paddle_step(g.left, up_held, down_held);
    let right = opponent_step(g.right, g.ball.y);
    let moved = ball_step(g.ball);
    let hit = ball_collide(ball_collide(moved, left), right);
    let right_scores = hit.x <= 0;
    let after_right = if right_scores { ball_start() } else { hit };
    let new_right_score: int = if right_scores { g.right_score + 1 } else { g.right_score };
    let left_scores = after_right.x >= SCREEN_WIDTH;
    let ball = if left_scores { ball_start() } else { after_right };
    let new_left_score: int = if left_scores { g.left_score + 1 } else { g.left_score };
    GameModel { left, right, ball, left_score: new_left_score, right_score: new_right_score }
}

/// The invariant a ball inside a running match keeps between steps: the
/// velocity components hold their fixed magnitudes, the ball sits strictly
/// between the side edges (a crossing is caught by the scoring checks the same
/// step it happens), the vertical position overshoots the top or bottom edge by
/// at most one step, and an overshot ball is already moving back inward.
pub open spec fn ball_wf(b: BallModel) -> bool {
    &&& (b.vx == BALL_SPEED_X || b.vx == -BALL_SPEED_X)
    &&& (b.vy == BALL_SPEED_Y || b.vy == -BALL_SPEED_Y)
    &&& 0 < b.x < SCREEN_WIDTH
    &&& -BALL_SPEED_Y <= b.y <= SCREEN_HEIGHT - BALL_SIZE + BALL_SPEED_Y
    &&& (b.y < 0 ==> b.vy == BALL_SPEED_Y)
    &&& (b.y > SCREEN_HEIGHT - BALL_SIZE ==> b.vy == -BALL_SPEED_Y)
}

/// The invariant a paddle inside a running match keeps: its vertical position
/// within one step of the playing range, its fixed horizontal position on the
/// screen.
pub open spec fn paddle_wf(p: PaddleModel) -> bool {
    &&& paddle_y_in_bounds(p.y)
    &&& 0 <= p.x <= SCREEN_WIDTH
}

/// The invariant of the whole match: both paddles and the ball well formed,
/// both scores non-negative.
pub open spec fn game_wf(g: GameModel) -> bool {
    &&& paddle_wf(g.left)
    &&& paddle_wf(g.right)
    &&& ball_wf(g.ball)
    &&& 0 <= g.left_score
    &&& 0 <= g.right_score
}

/// What one step's arithmetic needs so that every intermediate value fits in a
/// machine integer. Every state satisfying `game_wf` satisfies this with room
/// to spare; it is stated separately so that a step can also be taken from the
/// out-of-bounds states the scoring checks exist to catch.
pub open spec fn step_fits(g: GameModel) -> bool {
    &&& g.left_score < i32::MAX
    &&& g.right_score < i32::MAX
    &&& i32::MIN <= g.ball.x + g.ball.vx <= i32::MAX
    &&& i32::MIN <= g.ball.y + g.ball.vy <= i32::MAX
    &&& i32::MIN < g.ball.vx
    &&& i32::MIN < g.ball.vy
    &&& g.left.x <= i32::MAX - PADDLE_WIDTH
    &&& g.right.x <= i32::MAX - PADDLE_WIDTH
    &&& g.left.y <= i32::MAX - PADDLE_HEIGHT - PADDLE_SPEED
    &&& g.right.y <= i32::MAX - PADDLE_HEIGHT - PADDLE_SPEED
}

/// Law: one step preserves the match invariant. In particular both scores stay
/// non-negative and each paddle stays within one step of the playing range; the
/// ball leaves the side edges only into a reset, and overshoots the top or
/// bottom edge by at most one step before moving back inward.
pub proof fn lemma_step_preserves_wf(g: GameModel, up_held: bool, down_held: bool)
    requires
        game_wf(g),
        g.left_score < i32::MAX,
        g.right_score < i32::MAX,
    ensures
        game_wf(game_step(g, up_held, down_held)),
{
}

/// Law: the scores never decrease, and each step raises each score by at most
/// one.
pub proof fn lemma_step_scores_monotone(g: GameModel, up_held: bool, down_held: bool)
    ensures
        g.left_score <= game_step(g, up_held, down_held).left_score <= g.left_score + 1,
        g.right_score <= game_step(g, up_held, down_held).right_score <= g.right_score + 1,
{
}

pub struct MainState {
    /// The player's paddle, near the left edge.
    pub left_paddle: Paddle,
    /// The tracked paddle, near the right edge.
    pub right_paddle: Paddle,
    pub ball: Ball,
    pub left_score: i32,
    pub right_score: i32,
}

impl View for MainState {
    type V = GameModel;

    open spec fn view(&self) -> GameModel {
        GameModel {
            left: self.left_paddle@,
            right: self.right_paddle@,
            ball: self.ball@,
            left_score: self.left_score as int,
            right_score: self.right_score as int,
        }
    }
}

impl MainState {
    /// A fresh match: both paddles vertically centered, the left one near the
    /// left edge and the right one near the right edge, the ball in its start
    /// state, both scores zero.
    pub fn new() -> (s: MainState)
        ensures
            s@.left == (PaddleModel { x: 30, y: SCREEN_HEIGHT as int / 2 - PADDLE_HEIGHT as int / 2 }),
            s@.right == (PaddleModel {
                x: SCREEN_WIDTH as int - 50,
                y: SCREEN_HEIGHT as int / 2 - PADDLE_HEIGHT as int / 2,
            }),
            s@.ball == ball_start(),
            s@.left_score == 0,
            s@.right_score == 0,
            game_wf(s@),
    {
        MainState {
            left_paddle: Paddle::new(30, SCREEN_HEIGHT / 2 - PADDLE_HEIGHT / 2),
            right_paddle: Paddle::new(SCREEN_WIDTH - 50, SCREEN_HEIGHT / 2 - PADDLE_HEIGHT / 2),
            ball: Ball::new(),
            left_score: 0,
            right_score: 0,
        }
    }

    /// One step of the reactive tracking rule on the right paddle; nothing else
    /// changes.
    pub fn move_computer_paddle(&mut self)
        requires
            old(self).right_paddle.y <= i32::MAX - PADDLE_HEIGHT,
        ensures
            final(self)@.right == opponent_step(old(self)@.right, old(self)@.ball.y),
            final(self)@.left == old(self)@.left,
            final(self)@.ball == old(self)@.ball,
            final(self)@.left_score == old(self)@.left_score,
            final(self)@.right_score == old(self)@.right_score,
    {
        if self.ball.y < self.right_paddle.y {
            self.right_paddle.move_up();
        }
        if self.ball.y > self.right_paddle.y + PADDLE_HEIGHT {
            self.right_paddle.move_down();
        }
    }

    /// One full simulation step, from the two held player commands. The new
    /// state is exactly `game_step` of the old one; a step from a well-formed
    /// state lands in a well-formed state; and the scores never decrease.
    pub fn update(&mut self, up_held: bool, down_held: bool)
        requires
            step_fits(old(self)@),
        ensures
            final(self)@ == game_step(old(self)@, up_held, down_held),
            game_wf(old(self)@) ==> game_wf(final(self)@),
            old(self).left_score <= final(self).left_score,
            old(self).right_score <= final(self).right_score,
    {
        if up_held {
            self.left_paddle.move_up();
        }
        if down_held {
            self.left_paddle.move_down();
        }

        self.move_computer_paddle();

        self.ball.update();

        self.ball.check_collision(&self.left_paddle);
        self.ball.check_collision(&self.right_paddle);

        if self.ball.x <= 0 {
            self.right_score = self.right_score + 1;
            self.ball.reset();
        }
        if self.ball.x >= SCREEN_WIDTH {
            self.left_score = self.left_score + 1;
            self.ball.reset();
        }
    }
}

} // verus!
