use flycam::camera::TrigBasis;
use flycam::deg_to_rad;
use flycam::instance::Instance;
use flycam::instance::QuatFx;
use flycam::matrix::identity;
use flycam::matrix::look_at_rh;
use flycam::matrix::mat_mul;
use flycam::matrix::perspective_rh;
use flycam::pentagon_indices;
use flycam::pentagon_vertex_count;
use flycam::state::AcquireOutcome;
use flycam::state::FrameAction;
use flycam::state::PipelineVariant;
use flycam::state::State;
use flycam::vec3::Vec3Fx;
use flycam::vertex::AttrFormat;
use flycam::vertex::Vertex;
use flycam::PI_FX;

const FX: i64 = 65536;

#[test]
fn canonical_view_is_the_identity() {
    // Eye at the origin, front straight down -z, world up: the view matrix
    // is the identity transform.
    let eye = Vec3Fx { x: 0, y: 0, z: 0 };
    let front = Vec3Fx { x: 0, y: 0, z: -FX };
    let up = Vec3Fx { x: 0, y: FX, z: 0 };
    let view = look_at_rh(&eye, &front, &up);
    assert_eq!(view, identity());
}

#[test]
fn translated_eye_shows_up_in_the_fourth_column() {
    let eye = Vec3Fx { x: FX, y: 2 * FX, z: 3 * FX };
    let front = Vec3Fx { x: 0, y: 0, z: -FX };
    let up = Vec3Fx { x: 0, y: FX, z: 0 };
    let view = look_at_rh(&eye, &front, &up);
    // Rotation part stays the identity; translation is the eye projected
    // onto the basis (s, u, f) with f = +z here.
    assert_eq!(view.x_axis.x, FX);
    assert_eq!(view.y_axis.y, FX);
    assert_eq!(view.z_axis.z, FX);
    assert_eq!(view.w_axis.x, -FX);
    assert_eq!(view.w_axis.y, -2 * FX);
    assert_eq!(view.w_axis.z, -3 * FX);
    assert_eq!(view.w_axis.w, FX);
}

#[test]
fn perspective_matrix_has_the_expected_entries() {
    // cot(22.5 degrees) ~ 2.4142 -> 158218 in fixed point; aspect 16/9.
    let cot: i64 = 158218;
    let aspect: i64 = 116508;
    let znear: i64 = 6554;
    let zfar: i64 = 100 * FX;
    let p = perspective_rh(cot, aspect, znear, zfar);
    // w = cot * 65536 / aspect, truncated.
    assert_eq!(p.x_axis.x, (cot * FX) / aspect);
    assert_eq!(p.y_axis.y, cot);
    // r = -(zfar * 65536 / (zfar - znear)), truncated.
    assert_eq!(p.z_axis.z, -((zfar * FX) / (zfar - znear)));
    assert_eq!(p.z_axis.w, -FX);
    assert_eq!(p.w_axis.z, (p.z_axis.z * znear) / FX);
    assert_eq!(p.w_axis.w, 0);
    assert_eq!(p.x_axis.y, 0);
    assert_eq!(p.w_axis.x, 0);
}

#[test]
fn multiplying_by_the_identity_changes_nothing() {
    let cot: i64 = 158218;
    let p = perspective_rh(cot, FX, 6554, 100 * FX);
    let pi = mat_mul(&p, &identity());
    assert_eq!(pi, p);
    let ip = mat_mul(&identity(), &p);
    assert_eq!(ip, p);
}

#[test]
fn identity_rotation_gives_a_pure_translation() {
    let p = Vec3Fx { x: 5 * FX, y: -2 * FX, z: 7 * FX };
    let m = Instance { position: p, rotation: QuatFx::identity() }.to_matrix();
    assert_eq!(m.x_axis.x, FX);
    assert_eq!(m.x_axis.y, 0);
    assert_eq!(m.x_axis.z, 0);
    assert_eq!(m.x_axis.w, 0);
    assert_eq!(m.y_axis.x, 0);
    assert_eq!(m.y_axis.y, FX);
    assert_eq!(m.y_axis.z, 0);
    assert_eq!(m.z_axis.z, FX);
    assert_eq!(m.w_axis.x, 5 * FX);
    assert_eq!(m.w_axis.y, -2 * FX);
    assert_eq!(m.w_axis.z, 7 * FX);
    assert_eq!(m.w_axis.w, FX);
}

#[test]
fn quarter_turn_about_y_permutes_the_axes() {
    // q = (0, sin 45, 0, cos 45): a 90-degree rotation about +y.
    let s: i64 = 46341; // sin(45 degrees) in fixed point
    let m = Instance {
        position: Vec3Fx { x: 0, y: 0, z: 0 },
        rotation: QuatFx { x: 0, y: s, z: 0, w: s },
    }
    .to_matrix();
    // x axis maps near -z, z axis maps near +x; fixed-point truncation
    // leaves each entry within a sliver of the exact value.
    assert!((m.x_axis.x).abs() < 16);
    assert!((m.x_axis.z + FX).abs() < 16);
    assert!((m.z_axis.x - FX).abs() < 16);
    assert!((m.z_axis.z).abs() < 16);
    assert_eq!(m.y_axis.y, FX);
}

#[test]
fn state_starts_with_the_documented_defaults() {
    let s = State::new(1280, 720);
    assert_eq!(s.surface_width, 1280);
    assert_eq!(s.surface_height, 720);
    assert_eq!(s.camera.aspect, 1280 * FX / 720);
    assert_eq!(s.camera.eye, Vec3Fx { x: 0, y: FX, z: 2 * FX });
    assert_eq!(s.camera.front, Vec3Fx { x: 0, y: 0, z: -FX });
    assert_eq!(s.camera.fovy, 45 * FX);
    assert_eq!(s.camera.znear, 6554);
    assert_eq!(s.camera.zfar, 100 * FX);
    assert_eq!(s.camera_controller.speed, 15 * FX);
    assert_eq!(s.camera_controller.sensitivity, 6554);
    assert_eq!(s.pipeline, PipelineVariant::Solid);
    assert_eq!(s.num_indices, 10);
    assert_eq!(s.num_instances, 100);
    assert_eq!(s.bg_color.r, 6554);
    assert_eq!(s.bg_color.g, 13107);
    assert_eq!(s.bg_color.b, 13107);
    assert_eq!(s.bg_color.a, FX);
}

#[test]
fn resize_applies_only_nonzero_sizes() {
    let mut s = State::new(1280, 720);
    s.resize(1920, 1080);
    assert_eq!(s.surface_width, 1920);
    assert_eq!(s.surface_height, 1080);
    s.resize(0, 600);
    assert_eq!(s.surface_width, 1920);
    assert_eq!(s.surface_height, 1080);
    s.resize(800, 0);
    assert_eq!(s.surface_width, 1920);
    assert_eq!(s.surface_height, 1080);
    s.resize(0, 0);
    assert_eq!(s.surface_width, 1920);
    assert_eq!(s.surface_height, 1080);
    s.resize(640, 480);
    assert_eq!(s.surface_width, 640);
    assert_eq!(s.surface_height, 480);
}

#[test]
fn lost_surface_reconfigures_and_draws_nothing() {
    let s = State::new(1280, 720);
    let bg = s.bg_color;
    let cam = s.camera;
    assert_eq!(s.render(AcquireOutcome::Lost), FrameAction::Reconfigure);
    assert_eq!(s.render(AcquireOutcome::Outdated), FrameAction::Reconfigure);
    // The state is untouched by the decision.
    assert_eq!(s.bg_color, bg);
    assert_eq!(s.camera, cam);
}

#[test]
fn acquire_outcomes_map_to_their_actions() {
    let s = State::new(1280, 720);
    match s.render(AcquireOutcome::Success) {
        FrameAction::Draw(plan) => {
            assert_eq!(plan.clear_color, s.bg_color);
            assert_eq!(plan.pipeline, PipelineVariant::Solid);
            assert_eq!(plan.index_count, 10);
            assert_eq!(plan.instance_count, 100);
        },
        other => panic!("expected a draw, got {:?}", other),
    }
    assert_eq!(s.render(AcquireOutcome::OutOfMemory), FrameAction::Terminate);
    assert_eq!(s.render(AcquireOutcome::Timeout), FrameAction::SkipFrame);
}

#[test]
fn pipeline_toggle_alternates_between_the_variants() {
    let mut s = State::new(1280, 720);
    assert_eq!(s.pipeline, PipelineVariant::Solid);
    s.toggle_pipeline();
    assert_eq!(s.pipeline, PipelineVariant::CornerHighlight);
    s.toggle_pipeline();
    assert_eq!(s.pipeline, PipelineVariant::Solid);
}

#[test]
fn update_advances_camera_and_builds_the_uniform() {
    let mut s = State::new(1280, 720);
    s.input(&flycam::camera::WindowInput::Keyboard {
        key: flycam::camera::Key::W,
        pressed: true,
    });
    let trig = TrigBasis { sin_yaw: -FX, cos_yaw: 0, sin_pitch: 0, cos_pitch: FX };
    let cot: i64 = 158218;
    let z0 = s.camera.eye.z;
    let vp = s.update(FX, &trig, cot);
    assert_eq!(s.camera.front, Vec3Fx { x: 0, y: 0, z: -FX });
    assert_eq!(s.camera.eye.z, z0 - 15 * FX);
    // The returned uniform is exactly projection * view of the new camera.
    let view = look_at_rh(&s.camera.eye, &s.camera.front, &s.camera.up);
    let proj = perspective_rh(cot, s.camera.aspect, s.camera.znear, s.camera.zfar);
    assert_eq!(vp, mat_mul(&proj, &view));
}

#[test]
fn degrees_convert_to_fixed_point_radians() {
    assert_eq!(deg_to_rad(180 * FX), PI_FX);
    assert_eq!(deg_to_rad(90 * FX), PI_FX / 2);
    assert_eq!(deg_to_rad(45 * FX), 51471);
    assert_eq!(deg_to_rad(0), 0);
    assert_eq!(deg_to_rad(-180 * FX), -PI_FX);
}

#[test]
fn pentagon_mesh_data_is_fixed() {
    assert_eq!(pentagon_indices(), vec![0u16, 1, 4, 1, 2, 4, 2, 3, 4, 0]);
    assert_eq!(pentagon_vertex_count(), 5);
}

#[test]
fn vertex_layout_matches_the_binary_record() {
    let d = Vertex::desc();
    assert_eq!(d.array_stride, 20);
    assert!(!d.step_instance);
    assert_eq!(d.attrs.len(), 2);
    assert_eq!(d.attrs[0].offset, 0);
    assert_eq!(d.attrs[0].shader_location, 0);
    assert_eq!(d.attrs[0].format, AttrFormat::Float32x3);
    assert_eq!(d.attrs[1].offset, 12);
    assert_eq!(d.attrs[1].shader_location, 1);
    assert_eq!(d.attrs[1].format, AttrFormat::Float32x2);
}

#[test]
fn instance_layout_is_four_matrix_columns() {
    let d = Instance::desc();
    assert_eq!(d.array_stride, 64);
    assert!(d.step_instance);
    assert_eq!(d.attrs.len(), 4);
    for (i, a) in d.attrs.iter().enumerate() {
        assert_eq!(a.offset, 16 * i as u64);
        assert_eq!(a.shader_location, 5 + i as u32);
        assert_eq!(a.format, AttrFormat::Float32x4);
    }
}
