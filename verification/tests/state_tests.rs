use webgl_practices::state::{Msg, State};

#[test]
fn new_state_has_the_documented_defaults() {
    let s = State::new();
    assert_eq!(s.viewport.width, 200);
    assert_eq!(s.viewport.height, 300);
    assert_eq!((s.clear_color.r, s.clear_color.g, s.clear_color.b, s.clear_color.a), (0, 0, 0, 255));
    assert_eq!(s.camera.yaw_mrad, 785);
    assert_eq!(s.camera.pitch_mrad, 1396);
    assert_eq!(s.camera.radius_milli, 15000);
    assert!(!s.mouse.pressed);
}

#[test]
fn viewport_resize_touches_only_the_viewport() {
    let mut s = State::new();
    s.msg(Msg::ViewportResize(800, 600));
    assert_eq!(s.viewport.width, 800);
    assert_eq!(s.viewport.height, 600);
    assert_eq!(s.camera.yaw_mrad, 785);
    assert!(!s.mouse.pressed);
}

#[test]
fn clear_color_change_stores_the_channels() {
    let mut s = State::new();
    s.msg(Msg::ClearColorChange(10, 20, 30, 40));
    assert_eq!((s.clear_color.r, s.clear_color.g, s.clear_color.b, s.clear_color.a), (10, 20, 30, 40));
}

#[test]
fn a_drag_orbits_the_camera() {
    let mut s = State::new();
    s.msg(Msg::MouseDown(100, 200));
    assert!(s.mouse.pressed);
    assert_eq!((s.mouse.x, s.mouse.y), (100, 200));
    // dx = 100 - 90 = 10 drag units, 200 mrad; dy = 205 - 200 = 5, clamped.
    s.msg(Msg::MouseMove(90, 205));
    assert_eq!(s.camera.yaw_mrad, 985);
    assert_eq!(s.camera.pitch_mrad, 1496);
    assert_eq!((s.mouse.x, s.mouse.y), (90, 205));
}

#[test]
fn a_move_without_the_button_down_changes_nothing() {
    let mut s = State::new();
    s.msg(Msg::MouseMove(500, 500));
    assert_eq!(s.camera.yaw_mrad, 785);
    assert_eq!(s.camera.pitch_mrad, 1396);
    assert_eq!((s.mouse.x, s.mouse.y), (0, 0));
}

#[test]
fn releasing_the_button_ends_the_drag() {
    let mut s = State::new();
    s.msg(Msg::MouseDown(10, 10));
    s.msg(Msg::MouseUp);
    s.msg(Msg::MouseMove(200, 200));
    assert_eq!(s.camera.yaw_mrad, 785);
}

#[test]
fn zoom_stops_at_both_limits() {
    let mut s = State::new();
    s.msg(Msg::Zoom(-20000));
    assert_eq!(s.camera.radius_milli, 100);
    s.msg(Msg::Zoom(1_000_000));
    assert_eq!(s.camera.radius_milli, 50000);
    s.msg(Msg::Zoom(-5000));
    assert_eq!(s.camera.radius_milli, 45000);
}
