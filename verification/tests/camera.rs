use parametric_surface::camera::{Camera, Viewport};

#[test]
fn resize_replaces_the_projection_alone() {
    let mut camera = Camera::new([1.0f32, 2.0], [3.0f32, 4.0]);
    camera.resize([5.0, 6.0]);
    assert_eq!(*camera.projection(), [5.0, 6.0]);
    assert_eq!(*camera.view(), [3.0, 4.0]);
}

#[test]
fn set_transform_replaces_the_view_alone() {
    let mut camera = Camera::new([1.0f32, 2.0], [3.0f32, 4.0]);
    camera.set_transform([7.0, 8.0]);
    assert_eq!(*camera.projection(), [1.0, 2.0]);
    assert_eq!(*camera.view(), [7.0, 8.0]);
}

#[test]
fn viewport_takes_a_size_with_an_area() {
    let mut viewport = Viewport::new(500, 500);
    assert!(viewport.resize(640, 480));
    assert_eq!(viewport, Viewport { width: 640, height: 480 });
}

#[test]
fn viewport_ignores_a_size_without_area() {
    let mut viewport = Viewport::new(500, 400);
    assert!(!viewport.resize(0, 480));
    assert!(!viewport.resize(640, 0));
    assert!(!viewport.resize(0, 0));
    assert_eq!(viewport, Viewport { width: 500, height: 400 });
}
