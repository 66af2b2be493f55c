use desperate_dig::camera::{
    initial_view, projection, view, Projection, ViewTransform, CLEAR_COLOR_TENTHS, FAR_PLANE,
    FIELD_OF_VIEW_DEGREES, INITIAL_VIEW_Y_ANGLE, NEAR_PLANE_TENTHS, VIEW_SHIFT_Z,
};
use desperate_dig::scene::{Axis, Direction, SceneState};
use desperate_dig::viewport::{virtual_viewport, VirtualViewport};

#[test]
fn the_camera_constants_are_those_of_the_demo() {
    assert_eq!(FIELD_OF_VIEW_DEGREES, 60);
    assert_eq!(NEAR_PLANE_TENTHS, 1);
    assert_eq!(FAR_PLANE, 1000);
    assert_eq!(VIEW_SHIFT_Z, -5);
    assert_eq!(INITIAL_VIEW_Y_ANGLE, 60_000);
    assert_eq!(CLEAR_COLOR_TENTHS, [8, 9, 9, 10]);
}

#[test]
fn the_projection_takes_the_viewport_and_the_fixed_planes() {
    let viewport = VirtualViewport { width_num: 4800, height_num: 3600, den: 600 };
    assert_eq!(
        projection(viewport),
        Projection { fov_degrees: 60, viewport, near_tenths: 1, far: 1000 }
    );
}

#[test]
fn the_view_takes_the_two_angles_and_the_fixed_shift() {
    assert_eq!(view(1_000, -2_000), ViewTransform { shift_z: -5, x_angle: 1_000, y_angle: -2_000 });
    assert_eq!(view(0, 0), ViewTransform { shift_z: -5, x_angle: 0, y_angle: 0 });
}

#[test]
fn the_initial_view_is_turned_sixty_degrees_about_y() {
    assert_eq!(initial_view(), ViewTransform { shift_z: -5, x_angle: 0, y_angle: 60_000 });
    let s = SceneState::new();
    assert_eq!(s.view_transform(), initial_view());
    assert_eq!((s.x_angle(), s.y_angle()), (0, 0));
}

#[test]
fn only_an_update_replaces_the_view() {
    let mut s = SceneState::new();
    s.set_spin(Axis::Vertical, Direction::Positive, true);
    s.set_spin(Axis::Horizontal, Direction::Negative, true);
    s.recompute_projection(800, 600);
    assert_eq!(s.view_transform(), initial_view());
    s.update(250);
    assert_eq!(s.view_transform(), view(45_000, -45_000));
    s.set_spin(Axis::Vertical, Direction::Positive, false);
    s.recompute_projection(640, 480);
    assert_eq!(s.view_transform(), view(45_000, -45_000));
}

#[test]
fn an_update_over_no_time_gives_the_view_of_the_angles_and_keeps_them() {
    let mut s = SceneState::new();
    s.update(0);
    assert_eq!(s.view_transform(), view(0, 0));
    assert_eq!((s.x_angle(), s.y_angle()), (0, 0));
    s.set_spin(Axis::Vertical, Direction::Positive, true);
    s.update(250);
    let before = s.view_transform();
    assert_eq!(before, view(45_000, 0));
    s.update(0);
    assert_eq!(s.view_transform(), before);
    assert_eq!((s.x_angle(), s.y_angle()), (45_000, 0));
}

#[test]
fn the_projection_of_a_scene_follows_its_viewport() {
    let mut s = SceneState::new();
    assert_eq!(s.projection(), projection(virtual_viewport(1280, 720).unwrap()));
    s.recompute_projection(800, 600);
    assert_eq!(s.projection(), projection(virtual_viewport(800, 600).unwrap()));
    s.update(1_000);
    assert_eq!(s.projection(), projection(virtual_viewport(800, 600).unwrap()));
}
