//! A paddle: a vertically moving bat at one edge of the play field.
//!
//! A paddle owns its vertical position, its height, a velocity whose sign is
//! the direction of travel, and a flag that says whether input currently asks
//! it to move.  All operations are pure: they return a new paddle value.

use vstd::prelude::*;
use crate::window::Window;

verus! {

#[derive(Clone, Copy, Debug, PartialEq, Eq, Structural)]
pub struct Paddle {
    pub pos: isize,
    pub height: isize,
    pub should_move: bool,
    pub vel: isize,
}

impl Paddle {
    /// A paddle lies inside the field: its top edge is at or below the top of
    /// the field and its bottom edge at or above the bottom.
    pub open spec fn in_field(self, window: Window) -> bool {
        &&& self.height >= 0
        &&& 0 <= self.pos
        &&& self.pos <= window.height - self.height
    }

    /// Position after one update tick: if movement is enabled and one step of
    /// `vel` stays inside `[0, window.height - height]`, the paddle takes that
    /// step; otherwise it stays exactly where it is.  A paddle that would
    /// cross a wall does not clamp to the wall - it simply does not move.
    pub open spec fn next_pos(self, window: Window) -> int {
        if self.should_move
            && 0 <= self.pos + self.vel
            && self.pos + self.vel <= window.height - self.height {
            self.pos + self.vel
        } else {
            self.pos as int
        }
    }

    /// A fresh paddle: movement disabled, velocity at its default magnitude.
    pub fn new_with_default_vel(start_pos: isize, height: isize) -> (p: Paddle)
        ensures
            p.pos == start_pos,
            p.height == height,
            !p.should_move,
            p.vel == 2,
    {
        Paddle { pos: start_pos, height, should_move: false, vel: 2 }
    }

    /// Replace the velocity, leaving everything else untouched.
    pub fn update_vel(self, new_vel: isize) -> (p: Paddle)
        ensures
            p.pos == self.pos,
            p.height == self.height,
            p.should_move == self.should_move,
            p.vel == new_vel,
    {
        Paddle { vel: new_vel, ..self }
    }

    /// Replace the movement flag, leaving everything else untouched.
    pub fn set_should_move(self, should_move: bool) -> (p: Paddle)
        ensures
            p.pos == self.pos,
            p.height == self.height,
            p.should_move == should_move,
            p.vel == self.vel,
    {
        Paddle { should_move, ..self }
    }

    /// Advance the paddle by one tick against the field bounds.
    pub fn update_pos(self, window: &Window) -> (p: Paddle)
        requires
            self.should_move ==> isize::MIN <= self.pos + self.vel <= isize::MAX,
            self.should_move ==> isize::MIN <= window.height - self.height <= isize::MAX,
        ensures
            p.pos == self.next_pos(*window),
            p.height == self.height,
            p.should_move == self.should_move,
            p.vel == self.vel,
    {
        if self.should_move {
            let max_window_height = window.height - self.height;
            let new_pos = self.pos + self.vel;
            if new_pos >= 0 && new_pos <= max_window_height {
                Paddle { pos: new_pos, ..self }
            } else {
                self
            }
        } else {
            self
        }
    }
}

/// Paddle clamping: an update never moves a paddle that starts inside the
/// field to a position outside `[0, window.height - height]`, and a paddle
/// whose movement flag is off keeps its position whatever its velocity.
pub proof fn lemma_paddle_clamping(p: Paddle, window: Window)
    ensures
        p.in_field(window) ==> 0 <= p.next_pos(window) <= window.height - p.height,
        !p.should_move ==> p.next_pos(window) == p.pos,
{
}

/// Paddle stop-at-wall: a paddle resting exactly on the far wall with
/// positive velocity and movement enabled stays put - it does not clamp, it
/// does not move.
pub proof fn lemma_paddle_stops_at_wall(p: Paddle, window: Window)
    requires
        p.pos == window.height - p.height,
        p.vel > 0,
        p.should_move,
    ensures
        p.next_pos(window) == p.pos,
{
}

} // verus!
