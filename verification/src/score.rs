//! The score: one counter per side, bumped when the ball gets past a paddle.
//!
//! The miss tests deliberately use tighter thresholds than the ball's bounce
//! bands (`< 1` against `<= 10`, `>= width` against `>= width - 10`): between
//! them lies a dead zone where the ball neither bounces nor scores.

use vstd::prelude::*;
use crate::ball::Ball;
use crate::paddle::Paddle;
use crate::window::Window;

verus! {

/// The ball is past the left edge at a height the left paddle does not
/// cover: a point for the right side.
pub open spec fn misses_left_paddle(x: int, y: int, pos: int, height: int) -> bool {
    x < 1 && (y < pos || y > pos + height)
}

/// The ball is past the right edge at a height the right paddle does not
/// cover: a point for the left side.
pub open spec fn misses_right_paddle(x: int, y: int, width: int, pos: int, height: int) -> bool {
    x >= width && (y < pos || y > pos + height)
}

#[derive(Clone, Copy, Debug, PartialEq, Eq, Structural)]
pub struct Score {
    pub left_score: isize,
    pub right_score: isize,
}

impl Score {
    /// A fresh score sheet: nil-nil.
    pub fn new() -> (s: Score)
        ensures
            s.left_score == 0,
            s.right_score == 0,
    {
        Score { left_score: 0, right_score: 0 }
    }

    /// Evaluate the score against a ball position, checking the left edge
    /// first.  At most one side scores per tick, by exactly one point.
    pub fn update_score(
        self,
        ball: &Ball,
        window: &Window,
        left_paddle: &Paddle,
        right_paddle: &Paddle,
    ) -> (s: Score)
        requires
            isize::MIN <= left_paddle.pos + left_paddle.height <= isize::MAX,
            isize::MIN <= right_paddle.pos + right_paddle.height <= isize::MAX,
            misses_left_paddle(ball.x as int, ball.y as int, left_paddle.pos as int, left_paddle.height as int)
                ==> self.right_score < isize::MAX,
            !misses_left_paddle(ball.x as int, ball.y as int, left_paddle.pos as int, left_paddle.height as int)
                && misses_right_paddle(ball.x as int, ball.y as int, window.width as int, right_paddle.pos as int, right_paddle.height as int)
                ==> self.left_score < isize::MAX,
        ensures
            s.right_score == if misses_left_paddle(ball.x as int, ball.y as int, left_paddle.pos as int, left_paddle.height as int) {
                self.right_score + 1
            } else {
                self.right_score as int
            },
            s.left_score == if !misses_left_paddle(ball.x as int, ball.y as int, left_paddle.pos as int, left_paddle.height as int)
                && misses_right_paddle(ball.x as int, ball.y as int, window.width as int, right_paddle.pos as int, right_paddle.height as int) {
                self.left_score + 1
            } else {
                self.left_score as int
            },
    {
        if ball.x < 1
            && (ball.y < left_paddle.pos || ball.y > left_paddle.pos + left_paddle.height) {
            Score { right_score: self.right_score + 1, ..self }
        } else if ball.x >= window.width
            && (ball.y < right_paddle.pos || ball.y > right_paddle.pos + right_paddle.height) {
            Score { left_score: self.left_score + 1, ..self }
        } else {
            self
        }
    }
}

/// Scores never go down, and a tick awards at most one point in all.
pub proof fn lemma_score_monotone(
    before: Score,
    after: Score,
    ball: Ball,
    window: Window,
    left_paddle: Paddle,
    right_paddle: Paddle,
)
    requires
        after.right_score == if misses_left_paddle(ball.x as int, ball.y as int, left_paddle.pos as int, left_paddle.height as int) {
            before.right_score + 1
        } else {
            before.right_score as int
        },
        after.left_score == if !misses_left_paddle(ball.x as int, ball.y as int, left_paddle.pos as int, left_paddle.height as int)
            && misses_right_paddle(ball.x as int, ball.y as int, window.width as int, right_paddle.pos as int, right_paddle.height as int) {
            before.left_score + 1
        } else {
            before.left_score as int
        },
    ensures
        after.left_score >= before.left_score,
        after.right_score >= before.right_score,
        after.left_score + after.right_score <= before.left_score + before.right_score + 1,
{
}

} // verus!
