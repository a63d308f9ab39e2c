//! The per-tick entry points the event loop calls.
//!
//! One update tick advances the ball against the paddles as they stood at
//! the end of the previous tick, then advances both paddles, then evaluates
//! the score against the new ball and the new paddles.  One input event is
//! handed to both paddles' key pairs.

use vstd::prelude::*;
use crate::ball::Ball;
use crate::input::{press_result, press_up_down, press_w_s, release_result, release_up_down, release_w_s, Key};
use crate::paddle::Paddle;
use crate::score::{misses_left_paddle, misses_right_paddle, Score};
use crate::window::Window;

verus! {

/// Advance the whole simulation by one update tick, in the fixed order:
/// ball first, then both paddles, then the score against the new snapshot.
pub fn advance_simulation(
    window: &Window,
    ball: Ball,
    left_paddle: Paddle,
    right_paddle: Paddle,
    score: Score,
) -> (r: (Ball, Paddle, Paddle, Score))
    requires
        window.wf(),
        isize::MIN <= left_paddle.pos + left_paddle.height <= isize::MAX,
        isize::MIN <= right_paddle.pos + right_paddle.height <= isize::MAX,
        ball.vel_x != isize::MIN,
        ball.vel_y != isize::MIN,
        isize::MIN <= ball.x + ball.vel_x <= isize::MAX,
        isize::MIN <= ball.x - ball.vel_x <= isize::MAX,
        isize::MIN <= ball.y + ball.vel_y <= isize::MAX,
        isize::MIN <= ball.y - ball.vel_y <= isize::MAX,
        left_paddle.should_move ==> isize::MIN <= left_paddle.pos + left_paddle.vel <= isize::MAX,
        left_paddle.should_move ==> isize::MIN <= window.height - left_paddle.height <= isize::MAX,
        right_paddle.should_move ==> isize::MIN <= right_paddle.pos + right_paddle.vel <= isize::MAX,
        right_paddle.should_move ==> isize::MIN <= window.height - right_paddle.height <= isize::MAX,
        misses_left_paddle(
            ball.next_x(*window, left_paddle, right_paddle),
            ball.next_y(*window, left_paddle, right_paddle),
            left_paddle.next_pos(*window),
            left_paddle.height as int,
        ) ==> score.right_score < isize::MAX,
        !misses_left_paddle(
            ball.next_x(*window, left_paddle, right_paddle),
            ball.next_y(*window, left_paddle, right_paddle),
            left_paddle.next_pos(*window),
            left_paddle.height as int,
        ) && misses_right_paddle(
            ball.next_x(*window, left_paddle, right_paddle),
            ball.next_y(*window, left_paddle, right_paddle),
            window.width as int,
            right_paddle.next_pos(*window),
            right_paddle.height as int,
        ) ==> score.left_score < isize::MAX,
    ensures
        r.0.x == ball.next_x(*window, left_paddle, right_paddle),
        r.0.y == ball.next_y(*window, left_paddle, right_paddle),
        r.0.vel_x == ball.next_vel_x(*window, left_paddle, right_paddle),
        r.0.vel_y == ball.next_vel_y(*window),
        r.1.pos == left_paddle.next_pos(*window),
        r.1.height == left_paddle.height,
        r.1.vel == left_paddle.vel,
        r.1.should_move == left_paddle.should_move,
        r.2.pos == right_paddle.next_pos(*window),
        r.2.height == right_paddle.height,
        r.2.vel == right_paddle.vel,
        r.2.should_move == right_paddle.should_move,
        r.3.right_score == if misses_left_paddle(r.0.x as int, r.0.y as int, r.1.pos as int, r.1.height as int) {
            score.right_score + 1
        } else {
            score.right_score as int
        },
        r.3.left_score == if !misses_left_paddle(r.0.x as int, r.0.y as int, r.1.pos as int, r.1.height as int)
            && misses_right_paddle(r.0.x as int, r.0.y as int, window.width as int, r.2.pos as int, r.2.height as int) {
            score.left_score + 1
        } else {
            score.left_score as int
        },
{
    let new_ball = ball.update(window, &left_paddle, &right_paddle);
    let new_left_paddle = left_paddle.update_pos(window);
    let new_right_paddle = right_paddle.update_pos(window);
    let new_score = score.update_score(&new_ball, window, &new_left_paddle, &new_right_paddle);
    (new_ball, new_left_paddle, new_right_paddle, new_score)
}

/// Hand one key press to both paddles: the left listens to W and S, the
/// right to the arrow keys.
pub fn handle_key_press(key: Key, left_paddle: Paddle, right_paddle: Paddle) -> (r: (Paddle, Paddle))
    requires
        key == Key::S && left_paddle.vel < 0 ==> left_paddle.vel != isize::MIN,
        key == Key::Down && right_paddle.vel < 0 ==> right_paddle.vel != isize::MIN,
    ensures
        press_result(key, Key::W, Key::S, left_paddle, r.0),
        press_result(key, Key::Up, Key::Down, right_paddle, r.1),
{
    (press_w_s(key, left_paddle), press_up_down(key, right_paddle))
}

/// Hand one key release to both paddles.
pub fn handle_key_release(key: Key, left_paddle: Paddle, right_paddle: Paddle) -> (r: (Paddle, Paddle))
    ensures
        release_result(key, Key::W, Key::S, left_paddle, r.0),
        release_result(key, Key::Up, Key::Down, right_paddle, r.1),
{
    (release_w_s(key, left_paddle), release_up_down(key, right_paddle))
}

} // verus!
