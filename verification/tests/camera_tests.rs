use flycam::camera::Camera;
use flycam::camera::CameraController;
use flycam::camera::Key;
use flycam::camera::TrigBasis;
use flycam::camera::WindowInput;
use flycam::camera::PITCH_LIMIT;
use flycam::fx::fx_mul;
use flycam::fx::isqrt_u64;
use flycam::fx::sat_add_i64;
use flycam::fx::trunc_div_i64;
use flycam::vec3::cross;
use flycam::vec3::dot;
use flycam::vec3::normalize;
use flycam::vec3::Vec3Fx;

const FX: i64 = 65536;

fn controller() -> CameraController {
    // speed 15.0, sensitivity 0.1 (nearest fixed-point value)
    CameraController::new(15 * FX, 6554)
}

fn camera() -> Camera {
    Camera {
        eye: Vec3Fx { x: 0, y: FX, z: 2 * FX },
        up: Vec3Fx { x: 0, y: FX, z: 0 },
        front: Vec3Fx { x: 0, y: 0, z: -FX },
        aspect: 116508, // 1280 / 720
        fovy: 45 * FX,
        znear: 6554,
        zfar: 100 * FX,
    }
}

// Looking down the negative z axis: yaw is a quarter turn to the left.
fn trig_neg_z() -> TrigBasis {
    TrigBasis { sin_yaw: -FX, cos_yaw: 0, sin_pitch: 0, cos_pitch: FX }
}

#[test]
fn new_controller_has_no_keys_held() {
    let c = controller();
    assert!(!c.is_forward_pressed);
    assert!(!c.is_backward_pressed);
    assert!(!c.is_left_pressed);
    assert!(!c.is_right_pressed);
    assert!(!c.is_up_pressed);
    assert!(!c.is_down_pressed);
    assert_eq!(c.yaw, 0);
    assert_eq!(c.pitch, 0);
    assert_eq!(c.speed, 15 * FX);
    assert_eq!(c.sensitivity, 6554);
}

#[test]
fn movement_keys_set_and_clear_their_flags() {
    let mut c = controller();
    assert!(c.process_events(&WindowInput::Keyboard { key: Key::W, pressed: true }));
    assert!(c.is_forward_pressed);
    assert!(c.process_events(&WindowInput::Keyboard { key: Key::W, pressed: false }));
    assert!(!c.is_forward_pressed);
    assert!(c.process_events(&WindowInput::Keyboard { key: Key::Up, pressed: true }));
    assert!(c.is_forward_pressed);
    assert!(c.process_events(&WindowInput::Keyboard { key: Key::A, pressed: true }));
    assert!(c.is_left_pressed);
    assert!(c.process_events(&WindowInput::Keyboard { key: Key::Left, pressed: true }));
    assert!(c.is_left_pressed);
    assert!(c.process_events(&WindowInput::Keyboard { key: Key::S, pressed: true }));
    assert!(c.is_backward_pressed);
    assert!(c.process_events(&WindowInput::Keyboard { key: Key::Down, pressed: true }));
    assert!(c.is_backward_pressed);
    assert!(c.process_events(&WindowInput::Keyboard { key: Key::D, pressed: true }));
    assert!(c.is_right_pressed);
    assert!(c.process_events(&WindowInput::Keyboard { key: Key::Right, pressed: true }));
    assert!(c.is_right_pressed);
    assert!(c.process_events(&WindowInput::Keyboard { key: Key::Q, pressed: true }));
    assert!(c.is_up_pressed);
    assert!(c.process_events(&WindowInput::Keyboard { key: Key::E, pressed: true }));
    assert!(c.is_down_pressed);
}

#[test]
fn unrecognized_input_is_reported_unhandled() {
    let mut c = controller();
    let before = c;
    assert!(!c.process_events(&WindowInput::Keyboard { key: Key::Other, pressed: true }));
    assert!(!c.process_events(&WindowInput::CursorMoved));
    assert!(!c.process_events(&WindowInput::Other));
    assert_eq!(c, before);
}

#[test]
fn pointer_delta_accumulates_yaw_and_pitch() {
    let mut c = controller();
    // 10 pixels right, 4 pixels down
    c.cursor_move(10 * FX, 4 * FX);
    assert_eq!(c.yaw, 10 * FX * 6554);
    assert_eq!(c.pitch, -4 * FX * 6554);
}

#[test]
fn pitch_clamps_at_both_limits() {
    let mut c = controller();
    // 1000 pixels of downward-looking motion: far past the 89-degree clamp.
    c.cursor_move(0, 1000 * FX);
    assert_eq!(c.pitch, -PITCH_LIMIT);
    // Sweep back up just as far: clamped at the top.
    c.cursor_move(0, -2000 * FX);
    assert_eq!(c.pitch, PITCH_LIMIT);
    // Any further sequence keeps pitch inside the interval.
    for _ in 0..8 {
        c.cursor_move(0, 500 * FX);
        assert!(-PITCH_LIMIT <= c.pitch && c.pitch <= PITCH_LIMIT);
    }
}

#[test]
fn two_deltas_equal_their_sum() {
    let mut split = controller();
    split.cursor_move(3 * FX, 2 * FX);
    split.cursor_move(5 * FX, -FX);
    let mut joined = controller();
    joined.cursor_move(8 * FX, FX);
    assert_eq!(split.yaw, joined.yaw);
    assert_eq!(split.pitch, joined.pitch);
}

#[test]
fn forward_key_moves_eye_along_front() {
    // Forward key held, speed 15, delta-time 1, front = (0, 0, -1):
    // the eye's z drops by exactly 15 units and nothing else moves.
    let mut c = controller();
    c.process_events(&WindowInput::Keyboard { key: Key::W, pressed: true });
    let mut cam = camera();
    let (x0, y0, z0) = (cam.eye.x, cam.eye.y, cam.eye.z);
    c.update_camera(&mut cam, FX, &trig_neg_z());
    assert_eq!(cam.front, Vec3Fx { x: 0, y: 0, z: -FX });
    assert_eq!(cam.eye.x, x0);
    assert_eq!(cam.eye.y, y0);
    assert_eq!(cam.eye.z, z0 - 15 * FX);
}

#[test]
fn idle_update_recomputes_front_only() {
    let mut cam = camera();
    let c = controller();
    c.update_camera(&mut cam, FX, &trig_neg_z());
    assert_eq!(cam.front, Vec3Fx { x: 0, y: 0, z: -FX });
    assert_eq!(cam.eye, camera().eye);
    assert_eq!(cam.up, camera().up);
}

#[test]
fn strafe_uses_unnormalized_right_vector() {
    let mut c = controller();
    c.process_events(&WindowInput::Keyboard { key: Key::D, pressed: true });
    let mut cam = camera();
    let x0 = cam.eye.x;
    c.update_camera(&mut cam, FX, &trig_neg_z());
    // right = front x up = (0,0,-1) x (0,1,0) = (1,0,0)
    assert_eq!(cam.eye.x, x0 + 15 * FX);
    assert_eq!(cam.eye.z, camera().eye.z);
}

#[test]
fn vertical_motion_is_world_vertical() {
    let mut c = controller();
    c.process_events(&WindowInput::Keyboard { key: Key::Q, pressed: true });
    let mut cam = camera();
    let y0 = cam.eye.y;
    c.update_camera(&mut cam, FX, &trig_neg_z());
    assert_eq!(cam.eye.y, y0 + 15 * FX);
    assert_eq!(cam.eye.x, camera().eye.x);
    assert_eq!(cam.eye.z, camera().eye.z);
}

#[test]
fn opposite_keys_cancel() {
    let mut c = controller();
    c.process_events(&WindowInput::Keyboard { key: Key::W, pressed: true });
    c.process_events(&WindowInput::Keyboard { key: Key::S, pressed: true });
    let mut cam = camera();
    let before = cam.eye;
    c.update_camera(&mut cam, FX, &trig_neg_z());
    assert_eq!(cam.eye, before);
}

#[test]
fn fixed_point_multiply_truncates_toward_zero() {
    assert_eq!(fx_mul(FX, FX), FX);
    assert_eq!(fx_mul(-15 * FX, FX), -15 * FX);
    assert_eq!(fx_mul(1, 1), 0);
    assert_eq!(fx_mul(-1, 1), 0);
    assert_eq!(fx_mul(3 * FX / 2, 3 * FX / 2), 9 * FX / 4);
}

#[test]
fn truncating_division_rounds_toward_zero() {
    assert_eq!(trunc_div_i64(7, 2), 3);
    assert_eq!(trunc_div_i64(-7, 2), -3);
    assert_eq!(trunc_div_i64(0, 5), 0);
}

#[test]
fn saturating_addition_pins_the_extremes() {
    assert_eq!(sat_add_i64(1, 2), 3);
    assert_eq!(sat_add_i64(i64::MAX, 1), i64::MAX);
    assert_eq!(sat_add_i64(i64::MIN, -1), i64::MIN);
}

#[test]
fn integer_square_root_brackets_its_argument() {
    assert_eq!(isqrt_u64(0), 0);
    assert_eq!(isqrt_u64(1), 1);
    assert_eq!(isqrt_u64(15), 3);
    assert_eq!(isqrt_u64(16), 4);
    assert_eq!(isqrt_u64((FX as u64) * (FX as u64)), FX as u64);
}

#[test]
fn cross_product_is_orthogonal_to_its_factors() {
    let f = Vec3Fx { x: 3 * FX / 10, y: -FX / 2, z: 4 * FX / 5 };
    let u = Vec3Fx { x: 0, y: FX, z: 0 };
    let r = cross(&f, &u);
    // The exact integer cross product is orthogonal; one truncation per
    // component leaves at most a rounding sliver in the rescaled dot.
    let d = dot(&r, &f);
    assert!(d.abs() <= 3);
    // For axis-aligned inputs the dot product is exactly zero.
    let g = Vec3Fx { x: 0, y: 0, z: -FX };
    let rg = cross(&g, &u);
    assert_eq!(rg, Vec3Fx { x: FX, y: 0, z: 0 });
    assert_eq!(dot(&rg, &g), 0);
    assert_eq!(dot(&rg, &u), 0);
}

#[test]
fn normalize_scales_to_unit_length() {
    let v = Vec3Fx { x: 3 * FX, y: 4 * FX, z: 0 };
    let n = normalize(&v);
    // 3/5 and 4/5, truncated toward zero.
    assert_eq!(n, Vec3Fx { x: 39321, y: 52428, z: 0 });
    assert_eq!(normalize(&Vec3Fx { x: 0, y: 0, z: 0 }), Vec3Fx { x: 0, y: 0, z: 0 });
    assert_eq!(normalize(&Vec3Fx { x: 0, y: 0, z: FX }), Vec3Fx { x: 0, y: 0, z: FX });
}
