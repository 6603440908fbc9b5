use webgl_practices::camera::Camera;

#[test]
fn one_orbit_step_moves_twenty_milliradians() {
    let mut c = Camera::new();
    c.orbit_left_right(1);
    assert_eq!(c.yaw_mrad, 805);
    c.orbit_up_down(1);
    assert_eq!(c.pitch_mrad, 1416);
    assert_eq!(c.radius_milli, 15000);
}

#[test]
fn yaw_wraps_around_a_full_turn() {
    let mut c = Camera::new();
    // 785 - 800 = -15, which wraps to 6268.
    c.orbit_left_right(-40);
    assert_eq!(c.yaw_mrad, 6268);
    // A whole number of turns comes back to the start: 320 steps are
    // 6400 mrad, so the yaw advances by 6400 - 6283 = 117.
    let mut d = Camera::new();
    d.orbit_left_right(320);
    assert_eq!(d.yaw_mrad, 785 + 117);
}

#[test]
fn pitch_stops_at_its_stops() {
    let mut c = Camera::new();
    c.orbit_up_down(1000);
    assert_eq!(c.pitch_mrad, 1496);
    c.orbit_up_down(-1000);
    assert_eq!(c.pitch_mrad, -1653);
    c.orbit_up_down(10);
    assert_eq!(c.pitch_mrad, -1453);
}

#[test]
fn zoom_is_cut_off_at_the_stops() {
    let mut c = Camera::new();
    c.zoom(-14_900);
    assert_eq!(c.radius_milli, 100);
    c.zoom(-1);
    assert_eq!(c.radius_milli, 100);
    c.zoom(i64::MAX);
    assert_eq!(c.radius_milli, 50000);
    c.zoom(i64::MIN);
    assert_eq!(c.radius_milli, 100);
}
