use nalgebra_glm as glm;
use render_gl::camera::Camera;

fn multiply(a: &glm::Mat4, b: &glm::Mat4) -> glm::Mat4 {
    a * b
}

fn scene_camera() -> (glm::Mat4, glm::Mat4, Camera<glm::Mat4>) {
    let fov = 45.0 * glm::pi::<f32>() / 180.0;
    let aspect = 700.0 / 900.0;
    let projection = glm::perspective(aspect, fov, 0.1, 100.0);
    let view = glm::look_at(
        &glm::vec3(4.0, 3.0, 3.0),
        &glm::vec3(0.0, 0.0, 0.0),
        &glm::vec3(0.0, 1.0, 0.0),
    );
    (projection, view, Camera::new(projection, view, &multiply))
}

#[test]
fn scene_camera_is_dirty_until_cleaned() {
    let (_, _, mut camera) = scene_camera();
    assert!(camera.is_projection_view_dirty());
    camera.get_projection_view_matrix(&multiply);
    assert!(camera.is_projection_view_dirty());
    camera.clean_projection_view();
    assert!(!camera.is_projection_view_dirty());
}

#[test]
fn scene_camera_clean_before_first_read() {
    let (_, _, mut camera) = scene_camera();
    assert!(camera.is_projection_view_dirty());
    camera.clean_projection_view();
    assert!(!camera.is_projection_view_dirty());
}

#[test]
fn scene_camera_reads_are_bit_identical() {
    let (projection, view, mut camera) = scene_camera();
    let first = camera.get_projection_view_matrix(&multiply);
    let second = camera.get_projection_view_matrix(&multiply);
    let expected = projection * view;
    for (a, b) in first.iter().zip(second.iter()) {
        assert_eq!(a.to_bits(), b.to_bits());
    }
    for (a, b) in first.iter().zip(expected.iter()) {
        assert_eq!(a.to_bits(), b.to_bits());
    }
}
