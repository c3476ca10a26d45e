use pong::paddle::{Direction, Paddle};
use pong::{CENTER_Y_MU, KEY_I, KEY_S, KEY_W, PADDLE_TRAVEL_MU};

fn centered_left_paddle() -> Paddle {
    Paddle::new(KEY_W, KEY_S, 0, CENTER_Y_MU)
}

#[test]
fn new_paddle_is_motionless() {
    let p = centered_left_paddle();
    assert_eq!(p.direction, None);
    assert_eq!(p.y_velocity(), 0);
    assert_eq!(p.y_mu, 75_000);
}

#[test]
fn press_up_key_sets_upward_velocity() {
    let mut p = centered_left_paddle();
    p.on_key_press(KEY_W);
    assert_eq!(p.direction, Some(Direction::Up));
    assert_eq!(p.y_velocity(), -150);
}

#[test]
fn press_down_key_sets_downward_velocity() {
    let mut p = centered_left_paddle();
    p.on_key_press(KEY_S);
    assert_eq!(p.direction, Some(Direction::Down));
    assert_eq!(p.y_velocity(), 150);
}

#[test]
fn press_unrelated_key_leaves_velocity_unchanged() {
    let mut p = centered_left_paddle();
    p.on_key_press(KEY_I);
    assert_eq!(p.direction, None);
    assert_eq!(p.y_velocity(), 0);

    p.on_key_press(KEY_W);
    p.on_key_press(KEY_I);
    assert_eq!(p.direction, Some(Direction::Up));
    assert_eq!(p.y_velocity(), -150);
}

#[test]
fn last_key_pressed_wins() {
    let mut p = centered_left_paddle();
    p.on_key_press(KEY_W);
    p.on_key_press(KEY_S);
    assert_eq!(p.direction, Some(Direction::Down));
}

#[test]
fn release_other_key_keeps_direction() {
    let mut p = centered_left_paddle();
    p.on_key_press(KEY_W);
    p.on_key_release(KEY_S);
    assert_eq!(p.direction, Some(Direction::Up));
    p.on_key_release(KEY_I);
    assert_eq!(p.direction, Some(Direction::Up));
}

#[test]
fn press_then_release_round_trip() {
    let mut p = centered_left_paddle();
    p.on_key_press(KEY_W);
    p.on_key_release(KEY_W);
    assert_eq!(p.direction, None);
    assert_eq!(p.y_velocity(), 0);
}

#[test]
fn release_without_direction_is_ignored() {
    let mut p = centered_left_paddle();
    p.on_key_release(KEY_W);
    assert_eq!(p.direction, None);
}

#[test]
fn update_without_direction_is_a_no_op() {
    let mut p = centered_left_paddle();
    p.update_position(0);
    assert_eq!(p.y_mu, CENTER_Y_MU);
    p.update_position(16);
    assert_eq!(p.y_mu, CENTER_Y_MU);
    p.update_position(1_000_000_000);
    assert_eq!(p.y_mu, CENTER_Y_MU);
}

#[test]
fn update_with_zero_elapsed_time_is_a_no_op() {
    let mut p = centered_left_paddle();
    p.on_key_press(KEY_W);
    p.update_position(0);
    assert_eq!(p.y_mu, CENTER_Y_MU);
}

#[test]
fn one_second_upward_from_center_clamps_to_top() {
    // Starting centered at y = 75 units, one second at 150 units per
    // second would reach y = -75, so the clamp stops the paddle at 0.
    let mut p = centered_left_paddle();
    p.on_key_press(KEY_W);
    p.update_position(1000);
    assert_eq!(p.y_mu, 0);
}

#[test]
fn small_steps_integrate_exactly() {
    // 100 milliseconds at 150 units per second move the paddle 15 units.
    let mut p = centered_left_paddle();
    p.on_key_press(KEY_S);
    p.update_position(100);
    assert_eq!(p.y_mu, 90_000);
    p.on_key_release(KEY_S);
    p.on_key_press(KEY_W);
    p.update_position(100);
    assert_eq!(p.y_mu, 75_000);
}

#[test]
fn downward_motion_clamps_to_travel_limit() {
    let mut p = centered_left_paddle();
    p.on_key_press(KEY_S);
    p.update_position(u64::MAX);
    assert_eq!(p.y_mu, PADDLE_TRAVEL_MU);
}

#[test]
fn clamp_invariant_holds_for_arbitrarily_large_steps() {
    for dt in [0u64, 1, 16, 999, 1000, 1001, 123_456_789, u64::MAX] {
        let mut up = centered_left_paddle();
        up.on_key_press(KEY_W);
        up.update_position(dt);
        assert!(up.y_mu <= PADDLE_TRAVEL_MU);

        let mut down = centered_left_paddle();
        down.on_key_press(KEY_S);
        down.update_position(dt);
        assert!(down.y_mu <= PADDLE_TRAVEL_MU);
    }
}
