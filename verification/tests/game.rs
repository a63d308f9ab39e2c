use pong::ball::Ball;
use pong::input::{press_up_down, press_w_s, release_up_down, release_w_s, Key};
use pong::paddle::Paddle;
use pong::score::Score;
use pong::simulation::{advance_simulation, handle_key_press, handle_key_release};
use pong::window::Window;

fn field() -> Window {
    Window { width: 512, height: 342 }
}

fn paddle_at(pos: isize) -> Paddle {
    Paddle { pos, height: 100, should_move: false, vel: 2 }
}

#[test]
fn paddle_new_defaults() {
    let p = Paddle::new_with_default_vel(0, 100);
    assert_eq!(p.pos, 0);
    assert_eq!(p.height, 100);
    assert_eq!(p.vel, 2);
    assert!(!p.should_move);
}

#[test]
fn paddle_update_vel_touches_only_velocity() {
    let p = Paddle::new_with_default_vel(5, 100).update_vel(-7);
    assert_eq!(p.vel, -7);
    assert_eq!(p.pos, 5);
    assert_eq!(p.height, 100);
    assert!(!p.should_move);
}

#[test]
fn paddle_set_should_move_touches_only_flag() {
    let p = Paddle::new_with_default_vel(5, 100).set_should_move(true);
    assert!(p.should_move);
    assert_eq!(p.pos, 5);
    assert_eq!(p.height, 100);
    assert_eq!(p.vel, 2);
}

#[test]
fn paddle_does_not_move_when_disabled() {
    let p = paddle_at(50).update_pos(&field());
    assert_eq!(p.pos, 50);
}

#[test]
fn paddle_moves_when_enabled() {
    let p = paddle_at(50).set_should_move(true).update_pos(&field());
    assert_eq!(p.pos, 52);
}

#[test]
fn paddle_stops_at_bottom_wall() {
    // Resting exactly on the far wall with positive velocity: no move, no clamp.
    let p = paddle_at(242).set_should_move(true).update_pos(&field());
    assert_eq!(p.pos, 242);
}

#[test]
fn paddle_stops_at_top_wall() {
    let p = paddle_at(0).update_vel(-2).set_should_move(true).update_pos(&field());
    assert_eq!(p.pos, 0);
}

#[test]
fn paddle_stops_dead_rather_than_clamping() {
    // One step would overshoot the wall by one: the paddle stays at 241,
    // it does not snap to 242.
    let p = paddle_at(241).set_should_move(true).update_pos(&field());
    assert_eq!(p.pos, 241);
}

#[test]
fn ball_straight_motion() {
    let b = Ball { x: 100, y: 100, vel_x: 1, vel_y: 1 };
    let b = b.update(&field(), &paddle_at(0), &paddle_at(0));
    assert_eq!(b.x, 101);
    assert_eq!(b.y, 101);
    assert_eq!(b.vel_x, 1);
    assert_eq!(b.vel_y, 1);
}

#[test]
fn ball_reflects_off_right_paddle() {
    let b = Ball { x: 502, y: 150, vel_x: 1, vel_y: 1 };
    let b = b.update(&field(), &paddle_at(0), &paddle_at(100));
    assert_eq!(b.vel_x, -1);
    assert_eq!(b.x, 501);
    assert_eq!(b.y, 151);
    assert_eq!(b.vel_y, 1);
}

#[test]
fn ball_reflects_off_left_paddle() {
    let b = Ball { x: 10, y: 50, vel_x: -1, vel_y: 1 };
    let b = b.update(&field(), &paddle_at(0), &paddle_at(100));
    assert_eq!(b.vel_x, 1);
    assert_eq!(b.x, 11);
    assert_eq!(b.y, 51);
}

#[test]
fn ball_resets_when_past_left_edge() {
    // Past the left edge with no paddle covering: recentre, keep velocity.
    let b = Ball { x: 0, y: 150, vel_x: -1, vel_y: 1 };
    let b = b.update(&field(), &paddle_at(0), &paddle_at(0));
    assert_eq!(b.x, 256);
    assert_eq!(b.y, 171);
    assert_eq!(b.vel_x, -1);
    assert_eq!(b.vel_y, 1);
}

#[test]
fn ball_resets_when_past_right_edge() {
    let b = Ball { x: 513, y: 150, vel_x: 1, vel_y: 1 };
    let b = b.update(&field(), &paddle_at(0), &paddle_at(0));
    assert_eq!(b.x, 256);
    assert_eq!(b.y, 171);
    assert_eq!(b.vel_x, 1);
    assert_eq!(b.vel_y, 1);
}

#[test]
fn ball_bounces_off_bottom_wall() {
    let b = Ball { x: 100, y: 343, vel_x: 1, vel_y: 1 };
    let b = b.update(&field(), &paddle_at(0), &paddle_at(0));
    assert_eq!(b.vel_y, -1);
    assert_eq!(b.y, 342);
    assert_eq!(b.x, 101);
    assert_eq!(b.vel_x, 1);
}

#[test]
fn ball_bounces_off_top_wall() {
    let b = Ball { x: 100, y: -1, vel_x: 1, vel_y: -1 };
    let b = b.update(&field(), &paddle_at(0), &paddle_at(0));
    assert_eq!(b.vel_y, 1);
    assert_eq!(b.y, 0);
    assert_eq!(b.x, 101);
}

#[test]
fn ball_bounce_beats_reset() {
    // x = 0 is past the left edge, but the left paddle covers the ball, so
    // the bounce rule fires first and there is no reset.
    let b = Ball { x: 0, y: 50, vel_x: -1, vel_y: 1 };
    let b = b.update(&field(), &paddle_at(0), &paddle_at(0));
    assert_eq!(b.vel_x, 1);
    assert_eq!(b.x, 1);
    assert_eq!(b.y, 51);
}

#[test]
fn ball_reset_recentres_y_even_on_wall_bounce() {
    // Out on both axes at once: the reset recentres the position, while the
    // vertical velocity still follows the wall-bounce rule.
    let b = Ball { x: 600, y: 350, vel_x: 1, vel_y: 1 };
    let b = b.update(&field(), &paddle_at(100), &paddle_at(100));
    assert_eq!(b.x, 256);
    assert_eq!(b.y, 171);
    assert_eq!(b.vel_x, 1);
    assert_eq!(b.vel_y, -1);
}

#[test]
fn score_right_scores_on_left_miss() {
    let s = Score::new();
    let b = Ball { x: 0, y: 250, vel_x: -1, vel_y: 1 };
    let s = s.update_score(&b, &field(), &paddle_at(0), &paddle_at(0));
    assert_eq!(s.right_score, 1);
    assert_eq!(s.left_score, 0);
}

#[test]
fn score_unchanged_when_left_paddle_covers() {
    let s = Score::new();
    let b = Ball { x: 0, y: 50, vel_x: -1, vel_y: 1 };
    let s = s.update_score(&b, &field(), &paddle_at(0), &paddle_at(0));
    assert_eq!(s.right_score, 0);
    assert_eq!(s.left_score, 0);
}

#[test]
fn score_left_scores_on_right_miss() {
    let s = Score::new();
    let b = Ball { x: 512, y: 250, vel_x: 1, vel_y: 1 };
    let s = s.update_score(&b, &field(), &paddle_at(0), &paddle_at(0));
    assert_eq!(s.left_score, 1);
    assert_eq!(s.right_score, 0);
}

#[test]
fn score_unchanged_in_dead_zone() {
    // Past the bounce band but not past the miss threshold: no score.
    let s = Score::new();
    let b = Ball { x: 5, y: 250, vel_x: -1, vel_y: 1 };
    let s = s.update_score(&b, &field(), &paddle_at(0), &paddle_at(0));
    assert_eq!(s.left_score, 0);
    assert_eq!(s.right_score, 0);
}

#[test]
fn press_flips_positive_velocity_toward_up() {
    let p = press_up_down(Key::Up, paddle_at(50));
    assert_eq!(p.vel, -2);
    assert!(p.should_move);
}

#[test]
fn press_keeps_velocity_already_pointing_up() {
    let p = press_up_down(Key::Up, paddle_at(50).update_vel(-2));
    assert_eq!(p.vel, -2);
    assert!(p.should_move);
}

#[test]
fn press_twice_same_as_once() {
    let once = press_up_down(Key::Up, paddle_at(50));
    let twice = press_up_down(Key::Up, once);
    assert_eq!(twice, once);
}

#[test]
fn press_opposite_key_flips_back() {
    let p = press_up_down(Key::Up, paddle_at(50));
    let p = press_up_down(Key::Down, p);
    assert_eq!(p.vel, 2);
    assert!(p.should_move);
}

#[test]
fn press_other_key_changes_nothing() {
    let p = paddle_at(50);
    assert_eq!(press_up_down(Key::W, p), p);
    assert_eq!(press_w_s(Key::Up, p), p);
    assert_eq!(press_up_down(Key::Other, p), p);
}

#[test]
fn press_then_release_round_trip() {
    let pressed = press_w_s(Key::W, paddle_at(50));
    let released = release_w_s(Key::W, pressed);
    assert!(!released.should_move);
    assert_eq!(released.vel, pressed.vel);
    assert_eq!(released.pos, 50);
    assert_eq!(released.height, 100);
}

#[test]
fn release_other_key_keeps_moving() {
    let pressed = press_w_s(Key::S, paddle_at(50));
    let p = release_w_s(Key::Up, pressed);
    assert!(p.should_move);
    let p = release_up_down(Key::S, press_up_down(Key::Down, paddle_at(50)));
    assert!(p.should_move);
}

#[test]
fn handle_key_press_routes_to_the_right_paddle() {
    let (left, right) = handle_key_press(Key::W, paddle_at(10), paddle_at(20));
    assert!(left.should_move);
    assert!(!right.should_move);
    let (left, right) = handle_key_press(Key::Up, paddle_at(10), paddle_at(20));
    assert!(!left.should_move);
    assert!(right.should_move);
}

#[test]
fn handle_key_release_routes_to_the_right_paddle() {
    let left = paddle_at(10).set_should_move(true);
    let right = paddle_at(20).set_should_move(true);
    let (l, r) = handle_key_release(Key::S, left, right);
    assert!(!l.should_move);
    assert!(r.should_move);
    let (l, r) = handle_key_release(Key::Down, left, right);
    assert!(l.should_move);
    assert!(!r.should_move);
}

#[test]
fn advance_simulation_first_tick_from_start() {
    // The opening serve from the corner bounces straight off the left paddle.
    let ball = Ball { x: 0, y: 0, vel_x: 1, vel_y: 1 };
    let left = Paddle::new_with_default_vel(0, 100);
    let right = Paddle::new_with_default_vel(0, 100);
    let (b, l, r, s) = advance_simulation(&field(), ball, left, right, Score::new());
    assert_eq!(b, Ball { x: -1, y: 1, vel_x: -1, vel_y: 1 });
    assert_eq!(l, left);
    assert_eq!(r, right);
    assert_eq!(s, Score::new());
}

#[test]
fn advance_simulation_awards_a_point() {
    // The ball crosses the left edge above the paddle: the right side scores.
    let ball = Ball { x: 1, y: 250, vel_x: -1, vel_y: 1 };
    let (b, _, _, s) = advance_simulation(&field(), ball, paddle_at(0), paddle_at(0), Score::new());
    assert_eq!(b, Ball { x: 0, y: 251, vel_x: -1, vel_y: 1 });
    assert_eq!(s.right_score, 1);
    assert_eq!(s.left_score, 0);
}

#[test]
fn advance_simulation_moves_enabled_paddles() {
    let ball = Ball { x: 100, y: 100, vel_x: 1, vel_y: 1 };
    let left = paddle_at(10).set_should_move(true);
    let right = paddle_at(240).update_vel(-2).set_should_move(true);
    let (_, l, r, _) = advance_simulation(&field(), ball, left, right, Score::new());
    assert_eq!(l.pos, 12);
    assert_eq!(r.pos, 238);
}
