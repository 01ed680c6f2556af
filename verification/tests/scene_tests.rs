use scenekit::anim::select_animation;
use scenekit::anim::initial_animation;
use scenekit::anim::RUN_SLOT;
use scenekit::anim::IDLE_SLOT;
use scenekit::anim::RUN_SPEED;
use scenekit::anim::INITIAL_SPEED;
use scenekit::camera::follow_camera;
use scenekit::camera::update_camera;
use scenekit::camera::CameraPose;
use scenekit::camera::CAMERA_OFFSET_X;
use scenekit::camera::CAMERA_OFFSET_Y;
use scenekit::camera::CAMERA_OFFSET_Z;
use scenekit::frame::simulate_frame;
use scenekit::fx::FX_ONE;
use scenekit::fx::clamp;
use scenekit::fx::div_trunc;
use scenekit::fx::fx_mul;
use scenekit::fx::isqrt;
use scenekit::fx::lerp;
use scenekit::fx::root10;
use scenekit::motion::ControlledBody;
use scenekit::motion::InputState;
use scenekit::motion::Vec3Fx;
use scenekit::settings::AppSettings;
use scenekit::settings::DofMode;
use scenekit::settings::adjust_focus;
use scenekit::settings::dof_settings_of;
use scenekit::settings::DEFAULT_FOCAL_DISTANCE;
use scenekit::settings::DEFAULT_APERTURE_F_STOPS;
use scenekit::settings::MIN_FOCAL_DISTANCE;
use scenekit::settings::FOCAL_DISTANCE_SPEED;
use scenekit::settings::DOF_MAX_DEPTH;

#[test]
fn camera_offset_is_exactly_constant() {
    let positions = [
        Vec3Fx { x: 0, y: 0, z: 0 },
        Vec3Fx { x: -57_600, y: 600, z: 123_456 },
        Vec3Fx { x: 999_999_999, y: 42, z: -999_999_999 },
    ];
    for p in positions {
        let pose = follow_camera(&p);
        assert_eq!(pose.position.x - p.x, CAMERA_OFFSET_X);
        assert_eq!(pose.position.y - p.y, CAMERA_OFFSET_Y);
        assert_eq!(pose.position.z - p.z, CAMERA_OFFSET_Z);
        assert_eq!(pose.look_at_target, p);
    }
}

#[test]
fn camera_update_without_a_body_is_a_no_op() {
    let pose = CameraPose::new();
    assert_eq!(update_camera(&pose, None), pose);
    let p = Vec3Fx { x: 6000, y: 0, z: -6000 };
    let moved = update_camera(&pose, Some(&p));
    assert_eq!(moved.position.x, 6000 + CAMERA_OFFSET_X);
    assert_eq!(moved.look_at_target, p);
}

#[test]
fn one_frame_updates_body_then_camera() {
    let body = ControlledBody::new();
    let forward = InputState { forward: true, back: false, left: false, right: false, jump: false };
    let (next, pose) = simulate_frame(&body, &forward, 100);
    assert_eq!(next.target.x, -960);
    assert_eq!(pose.position.x, next.current.x + CAMERA_OFFSET_X);
    assert_eq!(pose.position.y, next.current.y + CAMERA_OFFSET_Y);
    assert_eq!(pose.look_at_target, next.current);
}

#[test]
fn default_settings_match_the_scene() {
    let s = AppSettings::default();
    assert_eq!(s.focal_distance, DEFAULT_FOCAL_DISTANCE);
    assert_eq!(s.aperture_f_stops, DEFAULT_APERTURE_F_STOPS);
    assert_eq!(s.mode, Some(DofMode::Bokeh));
}

#[test]
fn focus_adjustment_moves_and_clamps() {
    let s = AppSettings::default();
    let up = adjust_focus(&s, true, false);
    assert_eq!(up.focal_distance, DEFAULT_FOCAL_DISTANCE + FOCAL_DISTANCE_SPEED);
    let down = adjust_focus(&s, false, true);
    assert_eq!(down.focal_distance, DEFAULT_FOCAL_DISTANCE - FOCAL_DISTANCE_SPEED);
    // Down takes precedence when both arrows are held.
    let both = adjust_focus(&s, true, true);
    assert_eq!(both.focal_distance, DEFAULT_FOCAL_DISTANCE - FOCAL_DISTANCE_SPEED);
    let idle = adjust_focus(&s, false, false);
    assert_eq!(idle.focal_distance, DEFAULT_FOCAL_DISTANCE);
    // Near the minimum the distance clamps instead of going under.
    let near_min = AppSettings { focal_distance: MIN_FOCAL_DISTANCE + 1, ..s };
    let clamped = adjust_focus(&near_min, false, true);
    assert_eq!(clamped.focal_distance, MIN_FOCAL_DISTANCE);
    assert_eq!(clamped.aperture_f_stops, s.aperture_f_stops);
    assert_eq!(clamped.mode, s.mode);
}

#[test]
fn dof_settings_follow_the_mode() {
    let s = AppSettings::default();
    let dof = dof_settings_of(&s).unwrap();
    assert_eq!(dof.mode, DofMode::Bokeh);
    assert_eq!(dof.focal_distance, DEFAULT_FOCAL_DISTANCE);
    assert_eq!(dof.aperture_f_stops, DEFAULT_APERTURE_F_STOPS);
    assert_eq!(dof.max_depth, DOF_MAX_DEPTH);
    let off = AppSettings { mode: None, ..s };
    assert!(dof_settings_of(&off).is_none());
}

#[test]
fn animation_selection_swaps_run_and_idle() {
    let running = select_animation(true);
    assert_eq!(running.stop_slot, IDLE_SLOT);
    assert_eq!(running.play_slot, RUN_SLOT);
    assert_eq!(running.speed, RUN_SPEED);
    assert!(running.repeat);
    let idle = select_animation(false);
    assert_eq!(idle.stop_slot, RUN_SLOT);
    assert_eq!(idle.play_slot, IDLE_SLOT);
    assert_eq!(idle.speed, FX_ONE);
    assert!(idle.repeat);
    let first = initial_animation();
    assert_eq!(first.play_slot, IDLE_SLOT);
    assert_eq!(first.speed, INITIAL_SPEED);
    assert!(!first.repeat);
}

#[test]
fn fixed_point_primitives_round_toward_zero() {
    assert_eq!(fx_mul(6000, 6000), 6000);
    assert_eq!(fx_mul(3000, 3000), 1500);
    assert_eq!(fx_mul(-3000, 3000), -1500);
    assert_eq!(fx_mul(5, 5), 0);
    assert_eq!(div_trunc(-7, 2), -3);
    assert_eq!(div_trunc(7, 2), 3);
    assert_eq!(clamp(10, 0, 6000), 10);
    assert_eq!(clamp(-10, 0, 6000), 0);
    assert_eq!(clamp(7000, 0, 6000), 6000);
}

#[test]
fn lerp_moves_a_tenth_and_never_overshoots() {
    assert_eq!(lerp(0, 100, 600), 10);
    assert_eq!(lerp(100, 0, 600), 90);
    assert_eq!(lerp(0, -100, 600), -10);
    // Too close to move: truncation holds it in place, still no overshoot.
    assert_eq!(lerp(0, 5, 600), 0);
    // A full blend lands exactly on the target.
    assert_eq!(lerp(123, 456, 6000), 456);
}

#[test]
fn integer_roots_bracket_their_argument() {
    assert_eq!(isqrt(0), 0);
    assert_eq!(isqrt(1), 1);
    assert_eq!(isqrt(2), 1);
    assert_eq!(isqrt(144), 12);
    assert_eq!(isqrt(2 * 144_000 * 144_000), 203_646);
    assert_eq!(root10(0), 0);
    assert_eq!(root10(1), 1);
    assert_eq!(root10(1023), 1);
    assert_eq!(root10(1024), 2);
    assert_eq!(root10(60466176000000000000000000000000000000u128), 6000);
}
