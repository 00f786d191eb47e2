use reduction_view::camera::Camera2D;

fn camera(x: f32, y: f32, zoom_x: f32, zoom_y: f32) -> Camera2D {
    Camera2D { x: x.to_bits(), y: y.to_bits(), zoom_x: zoom_x.to_bits(), zoom_y: zoom_y.to_bits() }
}

#[test]
fn new_camera_is_the_identity() {
    let c = Camera2D::new();
    assert_eq!(c, camera(0.0, 0.0, 1.0, 1.0));
    assert!(c.is_valid());
}

#[test]
fn camera_needs_finite_centre_and_positive_zoom() {
    assert!(camera(-3.0, 7.5, 0.25, 1e6).is_valid());
    assert!(!camera(f32::NAN, 0.0, 1.0, 1.0).is_valid());
    assert!(!camera(0.0, f32::INFINITY, 1.0, 1.0).is_valid());
    assert!(!camera(0.0, 0.0, 0.0, 1.0).is_valid());
    assert!(!camera(0.0, 0.0, 1.0, -0.0).is_valid());
    assert!(!camera(0.0, 0.0, -2.0, 1.0).is_valid());
    assert!(!camera(0.0, 0.0, 1.0, f32::INFINITY).is_valid());
    assert!(!camera(0.0, 0.0, f32::NAN, 1.0).is_valid());
}

#[test]
fn camera_keeps_its_state_when_the_next_is_unusable() {
    let c = camera(1.0, 2.0, 3.0, 4.0);
    assert_eq!(c.moved_to(camera(5.0, 6.0, 7.0, 8.0)), camera(5.0, 6.0, 7.0, 8.0));
    assert_eq!(c.moved_to(camera(5.0, 6.0, 0.0, 8.0)), c);
    assert_eq!(c.moved_to(camera(f32::NAN, 6.0, 7.0, 8.0)), c);
}
