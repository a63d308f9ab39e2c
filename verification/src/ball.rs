//! The ball: a point moving one step per tick on each axis.
//!
//! Each tick the two axes are updated from the same prior snapshot.  On the
//! x axis the first matching rule wins: bounce off the right paddle, bounce
//! off the left paddle, reset to the centre of the field when the ball has
//! left it, or plain straight-line motion.  On the y axis the ball bounces
//! off the top and bottom of the field.  The reset rule also recentres the
//! y position, but never touches either velocity.

use vstd::prelude::*;
use crate::paddle::Paddle;
use crate::window::Window;

verus! {

#[derive(Clone, Copy, Debug, PartialEq, Eq, Structural)]
pub struct Ball {
    pub x: isize,
    pub y: isize,
    pub vel_x: isize,
    pub vel_y: isize,
}

impl Ball {
    /// The ball is in the band near the right edge and the right paddle
    /// covers its height (paddle ends inclusive).
    pub open spec fn hits_right_paddle(self, window: Window, right_paddle: Paddle) -> bool {
        &&& self.x >= window.width - 10
        &&& self.y >= right_paddle.pos
        &&& self.y <= right_paddle.pos + right_paddle.height
    }

    /// The ball is in the band near the left edge and the left paddle covers
    /// its height (paddle ends inclusive).
    pub open spec fn hits_left_paddle(self, left_paddle: Paddle) -> bool {
        &&& self.x <= 10
        &&& self.y >= left_paddle.pos
        &&& self.y <= left_paddle.pos + left_paddle.height
    }

    /// The ball has left the field on the x axis.  Note the asymmetry with
    /// the bounce bands above: between this test and those lies a narrow
    /// dead zone where the ball neither bounces nor resets.
    pub open spec fn out_on_x(self, window: Window) -> bool {
        self.x > window.width || self.x < 1
    }

    /// The reset rule fires: the ball is out on the x axis and neither
    /// paddle-bounce rule fired first.
    pub open spec fn resets(self, window: Window, left_paddle: Paddle, right_paddle: Paddle) -> bool {
        &&& !self.hits_right_paddle(window, right_paddle)
        &&& !self.hits_left_paddle(left_paddle)
        &&& self.out_on_x(window)
    }

    /// The ball has left the field on the y axis.
    pub open spec fn out_on_y(self, window: Window) -> bool {
        self.y > window.height || self.y < 0
    }

    /// Horizontal velocity after one tick: flipped by a paddle bounce,
    /// otherwise unchanged.  The reset rule never touches it.
    pub open spec fn next_vel_x(self, window: Window, left_paddle: Paddle, right_paddle: Paddle) -> int {
        if self.hits_right_paddle(window, right_paddle) || self.hits_left_paddle(left_paddle) {
            -self.vel_x
        } else {
            self.vel_x as int
        }
    }

    /// Vertical velocity after one tick: flipped by a wall bounce, otherwise
    /// unchanged.  It depends on the y axis alone.
    pub open spec fn next_vel_y(self, window: Window) -> int {
        if self.out_on_y(window) {
            -self.vel_y
        } else {
            self.vel_y as int
        }
    }

    /// Horizontal position after one tick, following the x rules in priority
    /// order: a bounce steps with the flipped velocity, a reset recentres,
    /// otherwise the ball moves straight on.
    pub open spec fn next_x(self, window: Window, left_paddle: Paddle, right_paddle: Paddle) -> int {
        if self.hits_right_paddle(window, right_paddle) || self.hits_left_paddle(left_paddle) {
            self.x - self.vel_x
        } else if self.out_on_x(window) {
            window.width as int / 2
        } else {
            self.x + self.vel_x
        }
    }

    /// Vertical position after one tick.  A reset recentres it; otherwise a
    /// wall bounce steps with the flipped velocity, and plain motion steps
    /// with the current one.
    pub open spec fn next_y(self, window: Window, left_paddle: Paddle, right_paddle: Paddle) -> int {
        if self.resets(window, left_paddle, right_paddle) {
            window.height as int / 2
        } else if self.out_on_y(window) {
            self.y - self.vel_y
        } else {
            self.y + self.vel_y
        }
    }

    /// Advance the ball by one tick against the field and the two paddles.
    pub fn update(&self, window: &Window, left_paddle: &Paddle, right_paddle: &Paddle) -> (b: Ball)
        requires
            window.wf(),
            isize::MIN <= left_paddle.pos + left_paddle.height <= isize::MAX,
            isize::MIN <= right_paddle.pos + right_paddle.height <= isize::MAX,
            self.vel_x != isize::MIN,
            self.vel_y != isize::MIN,
            isize::MIN <= self.x + self.vel_x <= isize::MAX,
            isize::MIN <= self.x - self.vel_x <= isize::MAX,
            isize::MIN <= self.y + self.vel_y <= isize::MAX,
            isize::MIN <= self.y - self.vel_y <= isize::MAX,
        ensures
            b.x == self.next_x(*window, *left_paddle, *right_paddle),
            b.y == self.next_y(*window, *left_paddle, *right_paddle),
            b.vel_x == self.next_vel_x(*window, *left_paddle, *right_paddle),
            b.vel_y == self.next_vel_y(*window),
    {
        let mut ball = Ball { ..*self };
        let mut did_reset = false;

        if self.x >= window.width - 10
            && self.y >= right_paddle.pos
            && self.y <= right_paddle.pos + right_paddle.height {
            ball.vel_x = -self.vel_x;
            ball.x = self.x + ball.vel_x;
        } else if self.x <= 10
            && self.y >= left_paddle.pos
            && self.y <= left_paddle.pos + left_paddle.height {
            ball.vel_x = -self.vel_x;
            ball.x = self.x + ball.vel_x;
        } else if self.x > window.width || self.x < 1 {
            ball.x = window.width / 2;
            ball.y = window.height / 2;
            did_reset = true;
        } else {
            ball.x = self.x + self.vel_x;
        }

        if self.y > window.height || self.y < 0 {
            ball.vel_y = -self.vel_y;
            if !did_reset {
                ball.y = self.y + ball.vel_y;
            }
        } else if !did_reset {
            ball.y = self.y + self.vel_y;
        }

        ball
    }
}

/// A tick never changes the magnitude of either velocity component, only
/// its sign: a bounce flips it and every other rule leaves it alone.
pub proof fn lemma_ball_velocity_magnitude_preserved(b: Ball, window: Window, left_paddle: Paddle, right_paddle: Paddle)
    ensures
        b.next_vel_x(window, left_paddle, right_paddle) == b.vel_x
            || b.next_vel_x(window, left_paddle, right_paddle) == -b.vel_x,
        b.next_vel_y(window) == b.vel_y || b.next_vel_y(window) == -b.vel_y,
{
}

/// Axis independence.  The vertical velocity after a tick is a function of
/// the y state alone (so an x reset cannot alter it); the horizontal
/// position and velocity never read the vertical velocity; a tick whose y
/// state is outside the field - a wall bounce - leaves the horizontal
/// velocity unchanged whenever both paddles lie inside the field; and the
/// reset rule leaves the horizontal velocity unchanged.
pub proof fn lemma_ball_axis_independence(a: Ball, b: Ball, window: Window, left_paddle: Paddle, right_paddle: Paddle)
    ensures
        a.y == b.y && a.vel_y == b.vel_y ==> a.next_vel_y(window) == b.next_vel_y(window),
        a.x == b.x && a.y == b.y && a.vel_x == b.vel_x ==> {
            &&& a.next_vel_x(window, left_paddle, right_paddle)
                == b.next_vel_x(window, left_paddle, right_paddle)
            &&& a.next_x(window, left_paddle, right_paddle)
                == b.next_x(window, left_paddle, right_paddle)
        },
        a.out_on_y(window) && left_paddle.in_field(window) && right_paddle.in_field(window)
            ==> a.next_vel_x(window, left_paddle, right_paddle) == a.vel_x,
        a.resets(window, left_paddle, right_paddle)
            ==> a.next_vel_x(window, left_paddle, right_paddle) == a.vel_x,
{
}

} // verus!
