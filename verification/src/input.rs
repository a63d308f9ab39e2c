//! Input mapping: discrete key press and release events turned into paddle
//! velocity and movement-flag changes.
//!
//! Each paddle listens to one pair of keys.  A press enables movement and,
//! only when the current velocity disagrees with the requested direction,
//! flips its sign - so the velocity field doubles as the paddle's last
//! direction and repeated presses of one key are no-ops after the first.
//! A release of either key of the pair disables movement and leaves the
//! velocity alone.  Keys outside the pair change nothing.

use vstd::prelude::*;
use crate::paddle::Paddle;

verus! {

/// The keys the game reacts to.  `Other` stands for every key and button
/// the game ignores.
#[derive(Clone, Copy, Debug, PartialEq, Eq, Structural)]
pub enum Key {
    Up,
    Down,
    W,
    S,
    Other,
}

/// What a press of `key` does to a paddle listening to the pair
/// `(up_key, down_key)`: `after` is `before` with movement enabled if the
/// key belongs to the pair, and with the velocity sign flipped exactly when
/// the key asks for the direction the velocity currently points away from.
pub open spec fn press_result(key: Key, up_key: Key, down_key: Key, before: Paddle, after: Paddle) -> bool {
    &&& after.pos == before.pos
    &&& after.height == before.height
    &&& after.vel == if key == up_key && before.vel > 0 {
            -before.vel
        } else if key == down_key && before.vel < 0 {
            -before.vel
        } else {
            before.vel as int
        }
    &&& after.should_move == if key == up_key || key == down_key {
            true
        } else {
            before.should_move
        }
}

/// What a release of `key` does to a paddle listening to the pair
/// `(up_key, down_key)`: movement is disabled if the key belongs to the
/// pair, and nothing else changes.
pub open spec fn release_result(key: Key, up_key: Key, down_key: Key, before: Paddle, after: Paddle) -> bool {
    &&& after.pos == before.pos
    &&& after.height == before.height
    &&& after.vel == before.vel
    &&& after.should_move == if key == up_key || key == down_key {
            false
        } else {
            before.should_move
        }
}

/// A press seen by the right paddle, which listens to the arrow keys.
pub fn press_up_down(key: Key, right_paddle: Paddle) -> (p: Paddle)
    requires
        key == Key::Down && right_paddle.vel < 0 ==> right_paddle.vel != isize::MIN,
    ensures
        press_result(key, Key::Up, Key::Down, right_paddle, p),
{
    match key {
        Key::Up => {
            if right_paddle.vel > 0 {
                right_paddle.update_vel(-right_paddle.vel).set_should_move(true)
            } else {
                right_paddle.set_should_move(true)
            }
        },
        Key::Down => {
            if right_paddle.vel < 0 {
                right_paddle.update_vel(-right_paddle.vel).set_should_move(true)
            } else {
                right_paddle.set_should_move(true)
            }
        },
        _ => right_paddle,
    }
}

/// A release seen by the right paddle, which listens to the arrow keys.
pub fn release_up_down(key: Key, right_paddle: Paddle) -> (p: Paddle)
    ensures
        release_result(key, Key::Up, Key::Down, right_paddle, p),
{
    match key {
        Key::Up | Key::Down => right_paddle.set_should_move(false),
        _ => right_paddle,
    }
}

/// A press seen by the left paddle, which listens to W and S.
pub fn press_w_s(key: Key, left_paddle: Paddle) -> (p: Paddle)
    requires
        key == Key::S && left_paddle.vel < 0 ==> left_paddle.vel != isize::MIN,
    ensures
        press_result(key, Key::W, Key::S, left_paddle, p),
{
    match key {
        Key::W => {
            if left_paddle.vel > 0 {
                left_paddle.update_vel(-left_paddle.vel).set_should_move(true)
            } else {
                left_paddle.set_should_move(true)
            }
        },
        Key::S => {
            if left_paddle.vel < 0 {
                left_paddle.update_vel(-left_paddle.vel).set_should_move(true)
            } else {
                left_paddle.set_should_move(true)
            }
        },
        _ => left_paddle,
    }
}

/// A release seen by the left paddle, which listens to W and S.
pub fn release_w_s(key: Key, left_paddle: Paddle) -> (p: Paddle)
    ensures
        release_result(key, Key::W, Key::S, left_paddle, p),
{
    match key {
        Key::W | Key::S => left_paddle.set_should_move(false),
        _ => left_paddle,
    }
}

/// Press idempotence: for a pair of two distinct keys, a second press of
/// the same key changes nothing - movement stays enabled and the velocity
/// sign flips at most once.
pub proof fn lemma_press_idempotent(key: Key, up_key: Key, down_key: Key, p: Paddle, q: Paddle, r: Paddle)
    requires
        up_key != down_key,
        press_result(key, up_key, down_key, p, q),
        press_result(key, up_key, down_key, q, r),
    ensures
        r == q,
{
}

/// Press-release round trip: pressing a key of the pair and then releasing
/// it leaves movement disabled and the velocity exactly as the press set it.
pub proof fn lemma_press_release_round_trip(key: Key, up_key: Key, down_key: Key, p: Paddle, q: Paddle, r: Paddle)
    requires
        key == up_key || key == down_key,
        press_result(key, up_key, down_key, p, q),
        release_result(key, up_key, down_key, q, r),
    ensures
        !r.should_move,
        r.vel == q.vel,
        r.pos == p.pos,
        r.height == p.height,
{
}

} // verus!
