use desperate_dig::scene::{Axis, Direction, SceneState, SPIN_VELOCITY, WINDOW_HEIGHT, WINDOW_WIDTH};
use desperate_dig::viewport::virtual_viewport;

#[test]
fn a_new_scene_is_at_rest() {
    let s = SceneState::new();
    assert_eq!(s.x_angle(), 0);
    assert_eq!(s.y_angle(), 0);
    assert_eq!(s.spin_velocity(), 180);
    assert_eq!(SPIN_VELOCITY, 180);
    assert!(!s.spin(Axis::Horizontal, Direction::Negative));
    assert!(!s.spin(Axis::Horizontal, Direction::Positive));
    assert!(!s.spin(Axis::Vertical, Direction::Negative));
    assert!(!s.spin(Axis::Vertical, Direction::Positive));
    assert_eq!(Some(s.viewport()), virtual_viewport(WINDOW_WIDTH, WINDOW_HEIGHT));
    assert_eq!(Some(s.viewport()), virtual_viewport(1280, 720));
}

#[test]
fn set_spin_sets_one_flag_and_no_other() {
    let mut s = SceneState::new();
    s.set_spin(Axis::Vertical, Direction::Positive, true);
    assert!(s.spin(Axis::Vertical, Direction::Positive));
    assert!(!s.spin(Axis::Vertical, Direction::Negative));
    assert!(!s.spin(Axis::Horizontal, Direction::Positive));
    assert!(!s.spin(Axis::Horizontal, Direction::Negative));
    s.set_spin(Axis::Vertical, Direction::Positive, false);
    assert!(!s.spin(Axis::Vertical, Direction::Positive));
    assert_eq!(s.x_angle(), 0);
    assert_eq!(s.y_angle(), 0);
}

#[test]
fn net_spin_is_the_difference_of_the_two_intents() {
    let mut s = SceneState::new();
    assert_eq!(s.net_spin(Axis::Horizontal), 0);
    s.set_spin(Axis::Horizontal, Direction::Positive, true);
    assert_eq!(s.net_spin(Axis::Horizontal), 1);
    assert_eq!(s.net_spin(Axis::Vertical), 0);
    s.set_spin(Axis::Horizontal, Direction::Negative, true);
    assert_eq!(s.net_spin(Axis::Horizontal), 0);
    s.set_spin(Axis::Horizontal, Direction::Positive, false);
    assert_eq!(s.net_spin(Axis::Horizontal), -1);
}

#[test]
fn horizontal_spin_turns_about_y_and_vertical_spin_about_x() {
    let mut s = SceneState::new();
    s.set_spin(Axis::Horizontal, Direction::Positive, true);
    s.update(100);
    assert_eq!(s.y_angle(), 18_000);
    assert_eq!(s.x_angle(), 0);
    s.set_spin(Axis::Vertical, Direction::Negative, true);
    s.update(50);
    assert_eq!(s.y_angle(), 27_000);
    assert_eq!(s.x_angle(), -9_000);
}

#[test]
fn opposed_intents_cancel() {
    let mut s = SceneState::new();
    s.set_spin(Axis::Vertical, Direction::Positive, true);
    s.update(123);
    let x = s.x_angle();
    assert_eq!(x, 22_140);
    s.set_spin(Axis::Vertical, Direction::Negative, true);
    s.set_spin(Axis::Horizontal, Direction::Negative, true);
    s.set_spin(Axis::Horizontal, Direction::Positive, true);
    assert_eq!(s.net_spin(Axis::Vertical), 0);
    assert_eq!(s.net_spin(Axis::Horizontal), 0);
    s.update(987_654);
    assert_eq!(s.x_angle(), x);
    assert_eq!(s.y_angle(), 0);
}

#[test]
fn update_over_no_time_changes_no_angle() {
    let mut s = SceneState::new();
    s.set_spin(Axis::Vertical, Direction::Negative, true);
    s.set_spin(Axis::Horizontal, Direction::Positive, true);
    s.update(777);
    let (x, y) = (s.x_angle(), s.y_angle());
    assert_eq!((x, y), (-139_860, 139_860));
    s.update(0);
    assert_eq!((s.x_angle(), s.y_angle()), (x, y));
    s.update(0);
    assert_eq!((s.x_angle(), s.y_angle()), (x, y));
}

#[test]
fn angles_stay_in_the_wrap_range_through_many_updates() {
    let mut s = SceneState::new();
    s.set_spin(Axis::Vertical, Direction::Negative, true);
    s.set_spin(Axis::Horizontal, Direction::Positive, true);
    let mut dt: u128 = 1;
    for _ in 0..100 {
        s.update(dt);
        assert!(-360_000 < s.x_angle() && s.x_angle() <= 0);
        assert!(0 <= s.y_angle() && s.y_angle() < 360_000);
        assert_eq!(s.x_angle(), -s.y_angle());
        dt = dt * 13 + 5;
    }
    s.update(u128::MAX);
    assert!(-360_000 < s.x_angle() && s.x_angle() <= 0);
}

#[test]
fn a_full_turn_comes_back_to_the_start() {
    let mut s = SceneState::new();
    s.set_spin(Axis::Horizontal, Direction::Positive, true);
    s.update(1_999);
    assert_eq!(s.y_angle(), 359_820);
    s.update(1);
    assert_eq!(s.y_angle(), 0);
}

#[test]
fn recompute_projection_replaces_the_viewport_only_for_a_window_with_area() {
    let mut s = SceneState::new();
    let before = s.viewport();
    assert!(!s.recompute_projection(0, 600));
    assert_eq!(s.viewport(), before);
    assert!(!s.recompute_projection(800, 0));
    assert_eq!(s.viewport(), before);
    assert!(s.recompute_projection(800, 600));
    assert_eq!(Some(s.viewport()), virtual_viewport(800, 600));
    assert_eq!(s.viewport().den, 600);
    assert_eq!(s.x_angle(), 0);
}

#[test]
fn cutting_a_span_into_frames_does_not_change_where_the_cube_points() {
    let mut whole = SceneState::new();
    let mut cut = SceneState::new();
    for s in [&mut whole, &mut cut] {
        s.set_spin(Axis::Horizontal, Direction::Positive, true);
        s.set_spin(Axis::Vertical, Direction::Negative, true);
    }
    whole.update(5_000);
    let frames: [u128; 6] = [16, 17, 1_000, 967, 2_999, 1];
    for dt in frames {
        cut.update(dt);
    }
    assert_eq!(frames.iter().sum::<u128>(), 5_000);
    assert_eq!(whole.y_angle(), 180_000);
    assert_eq!(cut.y_angle(), whole.y_angle());
    assert_eq!(whole.x_angle(), -180_000);
    assert_eq!(cut.x_angle(), whole.x_angle());
}

#[test]
fn turning_back_across_zero_differs_from_the_whole_span_by_a_full_turn() {
    let mut s = SceneState::new();
    s.set_spin(Axis::Horizontal, Direction::Positive, true);
    s.update(1_990);
    assert_eq!(s.y_angle(), 358_200);
    s.update(20);
    assert_eq!(s.y_angle(), 1_800);
    s.set_spin(Axis::Horizontal, Direction::Positive, false);
    s.set_spin(Axis::Horizontal, Direction::Negative, true);
    s.update(20);
    assert_eq!(s.y_angle(), -1_800);
    assert_eq!((358_200 - (-1_800)) % 360_000, 0);
}
