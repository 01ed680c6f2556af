use scenekit::fx::FX_ONE;
use scenekit::motion::ControlledBody;
use scenekit::motion::InputState;
use scenekit::motion::Vec3Fx;
use scenekit::motion::tick;
use scenekit::motion::normalize;
use scenekit::motion::smooth_yaw;
use scenekit::motion::yaw_of;
use scenekit::motion::PLAYER_SPEED;
use scenekit::motion::JUMP_VELOCITY;
use scenekit::motion::JUMP_EPSILON;
use scenekit::motion::FX_HALF_PI;
use scenekit::motion::FX_QUARTER_PI;
use scenekit::motion::FX_PI;

/// One sixtieth of a second in fixed-point: dt of a 60 Hz tick.
const DT_60: i64 = 100;

fn resting_body() -> ControlledBody {
    ControlledBody::new()
}

fn input(forward: bool, back: bool, left: bool, right: bool, jump: bool) -> InputState {
    InputState { forward, back, left, right, jump }
}

#[test]
fn tick_with_zero_dt_is_a_no_op() {
    let body = ControlledBody {
        current: Vec3Fx { x: 100, y: 200, z: -300 },
        target: Vec3Fx { x: 5000, y: 700, z: -9000 },
        vertical_velocity: 42,
        facing_angle: 4712,
        is_moving: true,
    };
    let held = input(true, false, true, false, true);
    assert_eq!(tick(&body, &held, 0), body);
    assert_eq!(tick(&body, &held, -250), body);
}

#[test]
fn coasting_changes_only_height() {
    let body = ControlledBody {
        current: Vec3Fx { x: 1000, y: 0, z: -2000 },
        target: Vec3Fx { x: 7000, y: 120000, z: -8000 },
        vertical_velocity: 0,
        facing_angle: 0,
        is_moving: false,
    };
    let idle = InputState::idle();
    let out = tick(&body, &idle, DT_60);
    // Horizontal target untouched; only gravity acted.
    assert_eq!(out.target.x, body.target.x);
    assert_eq!(out.target.z, body.target.z);
    assert!(out.target.y < body.target.y);
    assert!(!out.is_moving);
    assert_eq!(out.facing_angle, body.facing_angle);
    // The rendered position moved toward the target without overshooting.
    assert!(body.current.x <= out.current.x && out.current.x <= out.target.x);
    assert!(out.target.z <= out.current.z && out.current.z <= body.current.z);
}

#[test]
fn ground_clamp_stops_a_fall_exactly_at_zero() {
    let body = ControlledBody {
        current: Vec3Fx { x: 0, y: 3000, z: 0 },
        target: Vec3Fx { x: 0, y: 50, z: 0 },
        vertical_velocity: -100000,
        facing_angle: 0,
        is_moving: false,
    };
    let out = tick(&body, &InputState::idle(), DT_60);
    assert_eq!(out.target.y, 0);
    assert_eq!(out.vertical_velocity, 0);
}

#[test]
fn target_height_never_negative_over_many_ticks() {
    let mut body = resting_body();
    let idle = InputState::idle();
    for _ in 0..600 {
        body = tick(&body, &idle, DT_60);
        assert!(body.target.y >= 0);
    }
}

#[test]
fn jump_at_rest_sets_impulse_and_epsilon_height() {
    let body = resting_body();
    let out = tick(&body, &input(false, false, false, false, true), DT_60);
    assert_eq!(out.vertical_velocity, JUMP_VELOCITY);
    assert_eq!(out.target.y, JUMP_EPSILON);
}

#[test]
fn jump_arc_rises_then_returns_exactly_to_ground() {
    let mut body = tick(&resting_body(), &input(false, false, false, false, true), DT_60);
    let idle = InputState::idle();
    let mut peak: i64 = body.target.y;
    let mut rising = true;
    let mut landed = false;
    for _ in 0..2000 {
        let next = tick(&body, &idle, DT_60);
        if rising {
            if next.target.y < body.target.y {
                rising = false;
            }
        } else {
            // Once falling, the arc keeps falling until the clamp.
            assert!(next.target.y <= body.target.y);
        }
        if next.target.y > peak {
            peak = next.target.y;
        }
        body = next;
        if body.target.y == 0 {
            landed = true;
            break;
        }
    }
    assert!(landed);
    assert!(peak > JUMP_EPSILON);
    assert_eq!(body.target.y, 0);
    assert_eq!(body.vertical_velocity, 0);
}

#[test]
fn jump_in_the_air_is_ignored() {
    let airborne = ControlledBody {
        current: Vec3Fx { x: 0, y: 0, z: 0 },
        target: Vec3Fx { x: 0, y: 3_000_000, z: 0 },
        vertical_velocity: 0,
        facing_angle: 0,
        is_moving: false,
    };
    let with_jump = tick(&airborne, &input(false, false, false, false, true), DT_60);
    let without = tick(&airborne, &input(false, false, false, false, false), DT_60);
    assert_eq!(with_jump, without);
}

#[test]
fn forward_held_one_second_displaces_by_double_scaled_distance() {
    // The controller scales the movement by speed * dt twice, so each 60 Hz
    // tick pushes the target 24 * 24 / 3600 = 0.16 units forward, which is
    // exactly 960 fixed-point units; forward is the negative x direction.
    let mut body = resting_body();
    let forward = input(true, false, false, false, false);
    let mut expected_current: i64 = 0;
    let mut expected_target: i64 = 0;
    for _ in 0..60 {
        expected_target -= 960;
        expected_current += (expected_target - expected_current) * 600 / 6000;
        body = tick(&body, &forward, DT_60);
    }
    assert_eq!(body.target.x, -57_600);
    assert_eq!(body.target.y, 0);
    assert_eq!(body.target.z, 0);
    assert_eq!(body.current.x, expected_current);
    // The rendered position lags the target by the remainder of the
    // geometric blend, strictly between start and target.
    assert!(body.target.x < body.current.x && body.current.x < 0);
    assert_eq!(body.current.z, 0);
    assert!(body.is_moving);
    assert_eq!(body.facing_angle, -FX_HALF_PI);
}

#[test]
fn diagonal_movement_is_normalized() {
    let body = resting_body();
    // Forward and left held for one full second in a single tick.
    let out = tick(&body, &input(true, false, true, false, false), FX_ONE);
    assert_eq!(out.target.x, -2_443_392);
    assert_eq!(out.target.z, 2_443_392);
    assert_eq!(out.facing_angle, -FX_QUARTER_PI);
    // A single axis over the same time moves farther per axis.
    let single = tick(&resting_body(), &input(true, false, false, false, false), FX_ONE);
    assert_eq!(single.target.x, -3_456_000);
    assert!(out.target.x.abs() < single.target.x.abs());
}

#[test]
fn opposed_keys_cancel_and_clear_the_moving_flag() {
    let body = ControlledBody {
        is_moving: true,
        ..resting_body()
    };
    let out = tick(&body, &input(true, true, false, false, false), DT_60);
    assert_eq!(out.target.x, 0);
    assert_eq!(out.target.z, 0);
    assert!(!out.is_moving);
}

#[test]
fn normalize_single_axis_is_exact() {
    assert_eq!(normalize(PLAYER_SPEED, 0), (FX_ONE, 0));
    assert_eq!(normalize(-PLAYER_SPEED, 0), (-FX_ONE, 0));
    assert_eq!(normalize(0, PLAYER_SPEED), (0, FX_ONE));
    assert_eq!(normalize(PLAYER_SPEED, PLAYER_SPEED), (4242, 4242));
}

#[test]
fn yaw_covers_the_eight_directions() {
    assert_eq!(yaw_of(0, 1), 0);
    assert_eq!(yaw_of(1, 1), FX_QUARTER_PI);
    assert_eq!(yaw_of(1, 0), FX_HALF_PI);
    assert_eq!(yaw_of(1, -1), 14137);
    assert_eq!(yaw_of(0, -1), FX_PI);
    assert_eq!(yaw_of(-1, -1), -14137);
    assert_eq!(yaw_of(-1, 0), -FX_HALF_PI);
    assert_eq!(yaw_of(-1, 1), -FX_QUARTER_PI);
}

#[test]
fn smooth_yaw_moves_a_fifth_of_the_way() {
    assert_eq!(smooth_yaw(0, 6000), 1200);
    assert_eq!(smooth_yaw(6000, 0), 4800);
    assert_eq!(smooth_yaw(4712, 4712), 4712);
}
