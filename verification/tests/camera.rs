use voxel_viewer::camera::{
    axis, key_binding, CameraController, Direction, ElementState, KeyCode, Motion, MouseScrollDelta,
    Projection, Scaled, LINE_SCROLL_FACTOR, PITCH_FACTOR, PIXEL_SCROLL_FACTOR, YAW_FACTOR,
};

/// A camera pose as a host keeps it.
struct Pose {
    position: [f32; 3],
    yaw: f32,
    pitch: f32,
}

fn weighted(sample: Option<Scaled<f32>>) -> f32 {
    match sample {
        Some(s) => s.sample * s.factor as f32,
        None => 0.0,
    }
}

/// Integrates one frame into a pose, as a host does with what `take_motion`
/// hands out.
fn integrate(controller: &mut CameraController<f32>, pose: &mut Pose, dt: f32) -> Motion<f32> {
    let speed = controller.speed;
    let sensitivity = controller.sensitivity();
    let motion = controller.take_motion();
    let (yaw_sin, yaw_cos) = pose.yaw.sin_cos();
    let forward = [yaw_cos, 0.0, yaw_sin];
    let right = [-yaw_sin, 0.0, yaw_cos];
    let (pitch_sin, pitch_cos) = pose.pitch.sin_cos();
    let look = [pitch_cos * yaw_cos, pitch_sin, pitch_cos * yaw_sin];
    let dolly = weighted(motion.dolly);
    for a in 0..3 {
        pose.position[a] += forward[a] * motion.forward as f32 * speed * dt;
        pose.position[a] += right[a] * motion.right as f32 * speed * dt;
        pose.position[a] += look[a] * dolly * speed * sensitivity * dt;
    }
    pose.position[1] += motion.up as f32 * speed * dt;
    pose.yaw += weighted(motion.yaw) * sensitivity * dt;
    pose.pitch += weighted(motion.pitch) * sensitivity * dt;
    pose.pitch = pose.pitch.clamp(-std::f32::consts::FRAC_2_PI, std::f32::consts::FRAC_2_PI);
    motion
}

fn origin() -> Pose {
    Pose { position: [0.0, 0.0, 0.0], yaw: 0.0, pitch: 0.0 }
}

fn close(a: f32, b: f32) -> bool {
    (a - b).abs() < 1e-4
}

#[test]
fn new_controller_is_idle() {
    let mut c = CameraController::new(10.0f32, 1.0f32);
    assert_eq!(c.speed, 10.0);
    assert_eq!(c.sensitivity(), 1.0);
    for d in [
        Direction::Forward,
        Direction::Backward,
        Direction::Left,
        Direction::Right,
        Direction::Up,
        Direction::Down,
    ] {
        assert!(!c.is_held(d));
    }
    assert_eq!(c.pending_rotation(), (None, None));
    assert_eq!(c.pending_scroll(), None);
    let m = c.take_motion();
    assert_eq!(
        m,
        Motion { forward: 0, right: 0, up: 0, yaw: None, pitch: None, dolly: None }
    );
}

#[test]
fn key_table_binds_letters_arrows_and_modifiers() {
    assert_eq!(key_binding(KeyCode::KeyW), Some(Direction::Forward));
    assert_eq!(key_binding(KeyCode::ArrowUp), Some(Direction::Forward));
    assert_eq!(key_binding(KeyCode::KeyS), Some(Direction::Backward));
    assert_eq!(key_binding(KeyCode::ArrowDown), Some(Direction::Backward));
    assert_eq!(key_binding(KeyCode::KeyA), Some(Direction::Left));
    assert_eq!(key_binding(KeyCode::ArrowLeft), Some(Direction::Left));
    assert_eq!(key_binding(KeyCode::KeyD), Some(Direction::Right));
    assert_eq!(key_binding(KeyCode::ArrowRight), Some(Direction::Right));
    assert_eq!(key_binding(KeyCode::ShiftLeft), Some(Direction::Up));
    assert_eq!(key_binding(KeyCode::ControlLeft), Some(Direction::Down));
    assert_eq!(key_binding(KeyCode::Other), None);
}

#[test]
fn every_bound_key_sets_and_clears_its_direction() {
    let keys = [
        (KeyCode::KeyW, Direction::Forward),
        (KeyCode::ArrowUp, Direction::Forward),
        (KeyCode::KeyS, Direction::Backward),
        (KeyCode::ArrowDown, Direction::Backward),
        (KeyCode::KeyA, Direction::Left),
        (KeyCode::ArrowLeft, Direction::Left),
        (KeyCode::KeyD, Direction::Right),
        (KeyCode::ArrowRight, Direction::Right),
        (KeyCode::ShiftLeft, Direction::Up),
        (KeyCode::ControlLeft, Direction::Down),
    ];
    let all = [
        Direction::Forward,
        Direction::Backward,
        Direction::Left,
        Direction::Right,
        Direction::Up,
        Direction::Down,
    ];
    for (key, direction) in keys {
        let mut c = CameraController::new(1.0f32, 1.0f32);
        assert!(c.process_keyboard(key, ElementState::Pressed));
        for d in all {
            assert_eq!(c.is_held(d), d == direction);
        }
        assert!(c.process_keyboard(key, ElementState::Released));
        for d in all {
            assert!(!c.is_held(d));
        }
    }
}

#[test]
fn unbound_key_is_not_handled_and_changes_nothing() {
    let mut c = CameraController::new(10.0f32, 1.0f32);
    c.process_keyboard(KeyCode::KeyA, ElementState::Pressed);
    c.process_mouse(3.0, 4.0);
    assert!(!c.process_keyboard(KeyCode::Other, ElementState::Pressed));
    assert!(!c.process_keyboard(KeyCode::Other, ElementState::Released));
    assert!(c.is_held(Direction::Left));
    assert!(!c.is_held(Direction::Right));
    assert_eq!(c.pending_rotation(), (Some(3.0), Some(4.0)));
    assert_eq!(c.take_motion().right, -1);
}

#[test]
fn axis_is_the_difference_of_its_keys() {
    assert_eq!(axis(false, false), 0);
    assert_eq!(axis(true, false), 1);
    assert_eq!(axis(false, true), -1);
    assert_eq!(axis(true, true), 0);
}

#[test]
fn opposite_keys_cancel() {
    let mut c = CameraController::new(10.0f32, 1.0f32);
    c.process_keyboard(KeyCode::KeyW, ElementState::Pressed);
    c.process_keyboard(KeyCode::ArrowDown, ElementState::Pressed);
    c.process_keyboard(KeyCode::ShiftLeft, ElementState::Pressed);
    c.process_keyboard(KeyCode::KeyD, ElementState::Pressed);
    let m = c.take_motion();
    assert_eq!((m.forward, m.right, m.up), (0, 1, 1));
    c.process_keyboard(KeyCode::KeyW, ElementState::Released);
    c.process_keyboard(KeyCode::ControlLeft, ElementState::Pressed);
    let m = c.take_motion();
    assert_eq!((m.forward, m.right, m.up), (-1, 1, 0));
}

#[test]
fn pressed_key_moves_forward_and_stays_pressed() {
    let mut c = CameraController::new(10.0f32, 1.0f32);
    let mut pose = origin();
    assert!(c.process_keyboard(KeyCode::KeyW, ElementState::Pressed));
    let m = integrate(&mut c, &mut pose, 1.0);
    assert_eq!(
        m,
        Motion { forward: 1, right: 0, up: 0, yaw: None, pitch: None, dolly: None }
    );
    assert!(close(pose.position[0], 10.0));
    assert!(close(pose.position[1], 0.0));
    assert!(close(pose.position[2], 0.0));
    assert_eq!(c.pending_rotation(), (None, None));
    assert_eq!(c.pending_scroll(), None);
    assert!(c.is_held(Direction::Forward));
}

#[test]
fn held_key_moves_every_frame() {
    let mut c = CameraController::new(10.0f32, 1.0f32);
    let mut pose = origin();
    c.process_keyboard(KeyCode::KeyW, ElementState::Pressed);
    integrate(&mut c, &mut pose, 0.5);
    let once = pose.position[0];
    integrate(&mut c, &mut pose, 0.5);
    assert!(close(once, 5.0));
    assert!(close(pose.position[0], 2.0 * once));
    c.process_keyboard(KeyCode::KeyW, ElementState::Released);
    integrate(&mut c, &mut pose, 0.5);
    assert!(close(pose.position[0], 2.0 * once));
}

#[test]
fn mouse_motion_turns_once() {
    let mut c = CameraController::new(10.0f32, 1.0f32);
    let mut pose = origin();
    c.process_mouse(90.0, 0.0);
    assert_eq!(c.pending_rotation(), (Some(90.0), Some(0.0)));
    let m = integrate(&mut c, &mut pose, 1.0);
    assert_eq!(m.yaw, Some(Scaled { factor: 1, sample: 90.0 }));
    assert_eq!(m.pitch, Some(Scaled { factor: -1, sample: 0.0 }));
    assert_eq!(pose.yaw, 90.0);
    let m = integrate(&mut c, &mut pose, 1.0);
    assert_eq!(m.yaw, None);
    assert_eq!(m.pitch, None);
    assert_eq!(pose.yaw, 90.0);
}

#[test]
fn last_mouse_motion_wins() {
    let mut c = CameraController::new(10.0f32, 2.0f32);
    c.process_mouse(1.0, 2.0);
    c.process_mouse(-3.0, 5.0);
    let m = c.take_motion();
    assert_eq!(m.yaw, Some(Scaled { factor: YAW_FACTOR, sample: -3.0 }));
    assert_eq!(m.pitch, Some(Scaled { factor: PITCH_FACTOR, sample: 5.0 }));
}

#[test]
fn vertical_mouse_motion_is_inverted_and_pitch_is_clamped() {
    let mut c = CameraController::new(10.0f32, 1.0f32);
    let mut pose = origin();
    c.process_mouse(0.0, 0.25);
    integrate(&mut c, &mut pose, 1.0);
    assert_eq!(pose.pitch, -0.25);
    c.process_mouse(0.0, -100.0);
    integrate(&mut c, &mut pose, 1.0);
    assert_eq!(pose.pitch, std::f32::consts::FRAC_2_PI);
    c.process_mouse(0.0, 100.0);
    integrate(&mut c, &mut pose, 1.0);
    assert_eq!(pose.pitch, -std::f32::consts::FRAC_2_PI);
}

#[test]
fn scrolled_line_dollies_backward_by_a_hundred() {
    let mut c = CameraController::new(2.0f32, 0.5f32);
    let mut pose = origin();
    c.process_scroll(&MouseScrollDelta::LineDelta(0.0, 1.0));
    assert_eq!(c.pending_scroll(), Some(Scaled { factor: -100, sample: 1.0 }));
    let m = integrate(&mut c, &mut pose, 0.25);
    assert_eq!(m.dolly, Some(Scaled { factor: LINE_SCROLL_FACTOR, sample: 1.0 }));
    assert!(close(pose.position[0], -1.0 * 100.0 * 2.0 * 0.5 * 0.25));
    assert!(close(pose.position[1], 0.0));
    assert!(close(pose.position[2], 0.0));
    assert_eq!(c.pending_scroll(), None);
    let before = pose.position[0];
    integrate(&mut c, &mut pose, 0.25);
    assert_eq!(pose.position[0], before);
}

#[test]
fn scrolled_line_ignores_the_horizontal_amount() {
    let mut c = CameraController::new(1.0f32, 1.0f32);
    c.process_scroll(&MouseScrollDelta::LineDelta(7.0, -2.0));
    assert_eq!(c.take_motion().dolly, Some(Scaled { factor: -100, sample: -2.0 }));
}

#[test]
fn scrolled_pixels_are_inverted_only() {
    let mut c = CameraController::new(1.0f32, 1.0f32);
    c.process_scroll(&MouseScrollDelta::PixelDelta(12.5));
    assert_eq!(PIXEL_SCROLL_FACTOR, -1);
    assert_eq!(c.take_motion().dolly, Some(Scaled { factor: -1, sample: 12.5 }));
}

#[test]
fn last_scroll_wins() {
    let mut c = CameraController::new(1.0f32, 1.0f32);
    c.process_scroll(&MouseScrollDelta::LineDelta(0.0, 1.0));
    c.process_scroll(&MouseScrollDelta::PixelDelta(3.0));
    assert_eq!(c.take_motion().dolly, Some(Scaled { factor: -1, sample: 3.0 }));
}

#[test]
fn frame_without_time_clears_samples_and_keeps_pose() {
    let mut c = CameraController::new(10.0f32, 1.0f32);
    let mut pose = Pose { position: [1.0, 2.0, 3.0], yaw: 0.5, pitch: 0.25 };
    c.process_keyboard(KeyCode::KeyW, ElementState::Pressed);
    c.process_mouse(4.0, 5.0);
    c.process_scroll(&MouseScrollDelta::LineDelta(0.0, 2.0));
    integrate(&mut c, &mut pose, 0.0);
    assert_eq!(pose.position, [1.0, 2.0, 3.0]);
    assert_eq!(pose.yaw, 0.5);
    assert_eq!(pose.pitch, 0.25);
    assert_eq!(c.pending_rotation(), (None, None));
    assert_eq!(c.pending_scroll(), None);
    assert!(c.is_held(Direction::Forward));
}

#[test]
fn events_of_one_kind_leave_the_others_alone() {
    let mut c = CameraController::new(10.0f32, 1.0f32);
    c.process_mouse(1.0, 2.0);
    c.process_scroll(&MouseScrollDelta::PixelDelta(3.0));
    c.process_keyboard(KeyCode::KeyA, ElementState::Pressed);
    assert_eq!(c.pending_rotation(), (Some(1.0), Some(2.0)));
    assert_eq!(c.pending_scroll(), Some(Scaled { factor: -1, sample: 3.0 }));
    assert!(c.is_held(Direction::Left));
    c.speed = 20.0;
    assert_eq!(c.speed, 20.0);
    c.set_speed(30.0);
    assert_eq!(c.speed, 30.0);
    assert!(c.is_held(Direction::Left));
    assert_eq!(c.pending_rotation(), (Some(1.0), Some(2.0)));
    assert_eq!(c.sensitivity(), 1.0);
    assert_eq!(c.take_motion().right, -1);
}

#[test]
fn projection_keeps_its_lens_over_a_resize() {
    let mut p = Projection::new(800, 600, 0.785f32, 0.1f32, 100.0f32);
    assert_eq!(p.viewport(), (800, 600));
    assert_eq!((p.fov_y(), p.z_near(), p.z_far()), (0.785, 0.1, 100.0));
    p.resize(1920, 1080);
    assert_eq!(p.viewport(), (1920, 1080));
    assert_eq!((p.fov_y(), p.z_near(), p.z_far()), (0.785, 0.1, 100.0));
    p.resize(4, 0);
    assert_eq!(p.viewport(), (4, 0));
}
