//! The character motion controller.
//!
//! Each tick converts the sampled key state and the elapsed time `dt` into a
//! new body state: an input-driven target position with simple vertical
//! kinematics (gravity, a jump impulse, a ground clamp) and a rendered
//! position that follows the target by exponential smoothing. All quantities
//! are fixed-point scalars of `crate::fx`; `dt` is in seconds.

use vstd::prelude::*;
use crate::fx::FX_ONE;
use crate::fx::fx_mul;
use crate::fx::fx_mul_spec;
use crate::fx::div_trunc;
use crate::fx::tdiv;
use crate::fx::sq;
use crate::fx::sqrt_floor;
use crate::fx::isqrt;
use crate::fx::lerp;
use crate::fx::lerp_spec;
use crate::fx::lemma_sq_monotone;
use crate::fx::lemma_tdiv_ratio;
use vstd::arithmetic::mul::lemma_mul_inequality;
use vstd::arithmetic::div_mod::lemma_div_pos_is_pos;

verus! {

/// A point or displacement in world space, in fixed-point units.
#[derive(Clone, Copy, Debug, PartialEq, Eq, Structural)]
pub struct Vec3Fx {
    pub x: i64,
    pub y: i64,
    pub z: i64,
}

impl Vec3Fx {
    /// The origin.
    pub fn zero() -> (r: Vec3Fx)
        ensures
            r == (Vec3Fx { x: 0, y: 0, z: 0 }),
    {
        Vec3Fx { x: 0, y: 0, z: 0 }
    }
}

/// The key state sampled once per tick: held directions and whether the jump
/// key was pressed on this very tick (a rising edge, not a held key).
#[derive(Clone, Copy, Debug, PartialEq, Eq, Structural)]
pub struct InputState {
    pub forward: bool,
    pub back: bool,
    pub left: bool,
    pub right: bool,
    pub jump: bool,
}

impl InputState {
    /// No keys active.
    pub fn idle() -> (r: InputState)
        ensures
            r == (InputState {
                forward: false,
                back: false,
                left: false,
                right: false,
                jump: false,
            }),
    {
        InputState { forward: false, back: false, left: false, right: false, jump: false }
    }
}

/// The controlled entity's motion state.
///
/// `target` is the instantaneous, input-driven goal position; `current` is
/// the smoothed, rendered position that lags it. `facing_angle` is the yaw
/// of the last movement direction, in fixed-point radians.
#[derive(Clone, Copy, Debug, PartialEq, Eq, Structural)]
pub struct ControlledBody {
    pub current: Vec3Fx,
    pub target: Vec3Fx,
    pub vertical_velocity: i64,
    pub facing_angle: i64,
    pub is_moving: bool,
}

/// Horizontal movement speed, 24 units per second.
pub const PLAYER_SPEED: i64 = 144000;

/// Blend factor 0.1: the fraction of the remaining distance to the target
/// that the rendered position covers each tick.
pub const PLAYER_LERP_BLEND: i64 = 600;

/// Blend factor 0.2 for smoothing a rendered yaw toward `facing_angle`.
pub const PLAYER_ROTATION_BLEND: i64 = 1200;

/// Upward velocity set by a jump, 25 units per second.
pub const JUMP_VELOCITY: i64 = 150000;

/// Vertical acceleration, -100 units per second squared.
pub const GRAVITY: i64 = -600000;

/// Small height a fresh jump starts from, 0.1 units, so that the ground
/// clamp cannot swallow the jump within the same tick.
pub const JUMP_EPSILON: i64 = 600;

/// Fixed-point approximations, rounded toward zero, of the multiples of
/// pi/4 that the eight movement directions face.
pub const FX_PI: i64 = 18849;

/// Pi/2 in fixed-point radians.
pub const FX_HALF_PI: i64 = 9424;

/// Pi/4 in fixed-point radians.
pub const FX_QUARTER_PI: i64 = 4712;

/// 3*pi/4 in fixed-point radians.
pub const FX_3QUARTER_PI: i64 = 14137;

/// Largest coordinate magnitude a tick accepts; keeps every intermediate
/// product inside `i64`.
pub const COORD_LIMIT: i64 = 1_000_000_000_000;

/// Largest vertical-velocity magnitude a tick accepts.
pub const VEL_LIMIT: i64 = 1_000_000_000_000;

/// Largest tick duration a tick accepts: 100 seconds, far beyond any real
/// frame, but small enough that no product can overflow.
pub const DT_MAX: i64 = 600_000;

/// Largest magnitude any component of a tick's result can reach when the
/// inputs respect `COORD_LIMIT`, `VEL_LIMIT` and `DT_MAX`.
pub const POST_TICK_LIMIT: i64 = 1_100_000_000_000_000;

/// The x component of `(x, z)` scaled to unit length: `x * FX_ONE` divided
/// by the integer length of the vector.
pub open spec fn norm_x_spec(x: int, z: int) -> int
    recommends
        !(x == 0 && z == 0),
{
    tdiv(x * (FX_ONE as int), sqrt_floor((x * x + z * z) as nat) as int)
}

/// The z component of `(x, z)` scaled to unit length.
pub open spec fn norm_z_spec(x: int, z: int) -> int
    recommends
        !(x == 0 && z == 0),
{
    tdiv(z * (FX_ONE as int), sqrt_floor((x * x + z * z) as nat) as int)
}

/// The integer length of a nonzero bounded vector is between one and
/// one and a half billion, and each normalized component is a genuine unit
/// fraction: no larger than `FX_ONE` in magnitude.
pub proof fn lemma_norm_bounds(x: int, z: int)
    requires
        !(x == 0 && z == 0),
        -1_000_000_000 <= x <= 1_000_000_000,
        -1_000_000_000 <= z <= 1_000_000_000,
    ensures
        1 <= sqrt_floor((x * x + z * z) as nat) <= 1_500_000_000,
        -FX_ONE as int <= norm_x_spec(x, z) <= FX_ONE as int,
        -FX_ONE as int <= norm_z_spec(x, z) <= FX_ONE as int,
{
    assert(0 <= x * x <= 1_000_000_000_000_000_000 && 0 <= z * z <= 1_000_000_000_000_000_000 && (x
        != 0 ==> x * x >= 1) && (z != 0 ==> z * z >= 1)) by (nonlinear_arith)
        requires
            -1_000_000_000 <= x <= 1_000_000_000,
            -1_000_000_000 <= z <= 1_000_000_000,
    ;
    let n: nat = (x * x + z * z) as nat;
    crate::fx::lemma_sqrt_floor_bounds(n);
    let len = sqrt_floor(n) as int;
    // The length of a nonzero vector is at least one ...
    if len == 0 {
        assert(sq(1) == 1);
    }
    // ... and no longer than one and a half billion.
    if len > 1_500_000_000 {
        lemma_sq_monotone(1_500_000_000, len);
    }
    // Each component is bounded by the whole vector's length.
    assert(sq(if x >= 0 { x } else { -x }) <= n as int) by (nonlinear_arith)
        requires
            n as int == x * x + z * z,
    ;
    if (if x >= 0 { x } else { -x }) > len {
        lemma_sq_monotone(len + 1, if x >= 0 { x } else { -x });
    }
    assert(sq(if z >= 0 { z } else { -z }) <= n as int) by (nonlinear_arith)
        requires
            n as int == x * x + z * z,
    ;
    if (if z >= 0 { z } else { -z }) > len {
        lemma_sq_monotone(len + 1, if z >= 0 { z } else { -z });
    }
    // So each scaled component divides down to at most FX_ONE.
    lemma_mul_inequality(if x >= 0 { x } else { -x }, len, FX_ONE as int);
    lemma_mul_inequality(if z >= 0 { z } else { -z }, len, FX_ONE as int);
    assert(x * (FX_ONE as int) <= len * (FX_ONE as int) && -(len * (FX_ONE as int)) <= x * (
    FX_ONE as int)) by (nonlinear_arith)
        requires
            (if x >= 0 {
                x
            } else {
                -x
            }) * (FX_ONE as int) <= len * (FX_ONE as int),
            FX_ONE == 6000,
    ;
    assert(z * (FX_ONE as int) <= len * (FX_ONE as int) && -(len * (FX_ONE as int)) <= z * (
    FX_ONE as int)) by (nonlinear_arith)
        requires
            (if z >= 0 {
                z
            } else {
                -z
            }) * (FX_ONE as int) <= len * (FX_ONE as int),
            FX_ONE == 6000,
    ;
    lemma_tdiv_ratio(x * (FX_ONE as int), len, FX_ONE as int);
    lemma_tdiv_ratio(z * (FX_ONE as int), len, FX_ONE as int);
}

/// Scale the nonzero vector `(x, z)` to unit length (`FX_ONE`), rounding
/// each component toward zero.
pub fn normalize(x: i64, z: i64) -> (u: (i64, i64))
    requires
        !(x == 0 && z == 0),
        -1_000_000_000 <= x <= 1_000_000_000,
        -1_000_000_000 <= z <= 1_000_000_000,
    ensures
        u.0 == norm_x_spec(x as int, z as int),
        u.1 == norm_z_spec(x as int, z as int),
        -FX_ONE <= u.0 <= FX_ONE,
        -FX_ONE <= u.1 <= FX_ONE,
{
    proof {
        assert(0 <= x * x <= 1_000_000_000_000_000_000 && 0 <= z * z
            <= 1_000_000_000_000_000_000) by (nonlinear_arith)
            requires
                -1_000_000_000 <= x <= 1_000_000_000,
                -1_000_000_000 <= z <= 1_000_000_000,
        ;
        lemma_norm_bounds(x as int, z as int);
    }
    let xx = x * x;
    let zz = z * z;
    let n = (xx + zz) as u64;
    let len = isqrt(n);
    let l = len as i64;
    let ux = div_trunc(x * FX_ONE, l);
    let uz = div_trunc(z * FX_ONE, l);
    (ux, uz)
}

/// Signed eastward movement demanded by the held keys, before normalizing;
/// forward is the negative x direction.
pub open spec fn input_raw_x(i: InputState) -> int {
    (if i.back {
        PLAYER_SPEED as int
    } else {
        0
    }) - (if i.forward {
        PLAYER_SPEED as int
    } else {
        0
    })
}

/// Signed sideways movement demanded by the held keys; left is the positive
/// z direction.
pub open spec fn input_raw_z(i: InputState) -> int {
    (if i.left {
        PLAYER_SPEED as int
    } else {
        0
    }) - (if i.right {
        PLAYER_SPEED as int
    } else {
        0
    })
}

/// Whether the held keys demand any horizontal movement (opposed keys
/// cancel).
pub open spec fn input_moving(i: InputState) -> bool {
    input_raw_x(i) != 0 || input_raw_z(i) != 0
}

/// The yaw `atan2(x, z)` of a movement direction. The held keys only ever
/// produce the eight compass directions (components equal in magnitude or
/// zero), so the yaw is one of the multiples of pi/4, here as fixed-point
/// approximations rounded toward zero.
pub open spec fn yaw_spec(x: int, z: int) -> int
    recommends
        !(x == 0 && z == 0),
{
    if x == 0 && z >= 0 {
        0
    } else if x > 0 && z > 0 {
        FX_QUARTER_PI as int
    } else if x > 0 && z == 0 {
        FX_HALF_PI as int
    } else if x > 0 {
        FX_3QUARTER_PI as int
    } else if x == 0 {
        FX_PI as int
    } else if z < 0 {
        -FX_3QUARTER_PI as int
    } else if z == 0 {
        -FX_HALF_PI as int
    } else {
        -FX_QUARTER_PI as int
    }
}

/// The yaw of a movement direction; see `yaw_spec`.
pub fn yaw_of(x: i64, z: i64) -> (r: i64)
    ensures
        r == yaw_spec(x as int, z as int),
        -FX_PI <= r <= FX_PI,
{
    if x == 0 && z >= 0 {
        0
    } else if x > 0 && z > 0 {
        FX_QUARTER_PI
    } else if x > 0 && z == 0 {
        FX_HALF_PI
    } else if x > 0 {
        FX_3QUARTER_PI
    } else if x == 0 {
        FX_PI
    } else if z < 0 {
        -FX_3QUARTER_PI
    } else if z == 0 {
        -FX_HALF_PI
    } else {
        -FX_QUARTER_PI
    }
}

/// The speed factor of one tick: `PLAYER_SPEED * dt`.
pub open spec fn speed_dt_spec(dt: int) -> int {
    fx_mul_spec(PLAYER_SPEED as int, dt)
}

/// The horizontal displacement one tick adds to the target position. The
/// factor `PLAYER_SPEED * dt` is applied twice, once into the movement
/// vector and once more when it is added onto the target, so the per-tick
/// displacement is `speed^2 * dt^2` along the unit direction. The double
/// scaling is the controller's deliberate behavior and the tests pin it
/// down.
pub open spec fn step_spec(i: InputState, dt: int) -> (int, int) {
    if !input_moving(i) {
        (0, 0)
    } else {
        let ux = norm_x_spec(input_raw_x(i), input_raw_z(i));
        let uz = norm_z_spec(input_raw_x(i), input_raw_z(i));
        let s = speed_dt_spec(dt);
        (fx_mul_spec(fx_mul_spec(ux, s), s), fx_mul_spec(fx_mul_spec(uz, s), s))
    }
}

/// The vertical velocity after integrating gravity over `dt`.
pub open spec fn gravity_velocity_spec(vv: int, dt: int) -> int {
    vv + fx_mul_spec(GRAVITY as int, dt)
}

/// The target height after integrating gravity over `dt`, before the jump
/// test and the ground clamp.
pub open spec fn y_after_gravity_spec(b: ControlledBody, dt: int) -> int {
    b.target.y + fx_mul_spec(gravity_velocity_spec(b.vertical_velocity as int, dt), dt)
}

/// The target height and vertical velocity one tick produces: integrate
/// gravity, then trigger a jump if one was requested while at or below the
/// ground, then clamp to the ground.
pub open spec fn vertical_spec(y: int, vv: int, jump: bool, dt: int) -> (int, int) {
    let vv1 = gravity_velocity_spec(vv, dt);
    let y1 = y + fx_mul_spec(vv1, dt);
    if jump && y1 <= 0 {
        (JUMP_EPSILON as int, JUMP_VELOCITY as int)
    } else if y1 < 0 {
        (0, 0)
    } else {
        (y1, vv1)
    }
}

/// Bounds under which a tick cannot overflow, together with the standing
/// invariants: the target never sits below the ground, and the facing angle
/// is a genuine fixed-point angle.
pub open spec fn body_wf(b: ControlledBody) -> bool {
    &&& -COORD_LIMIT <= b.current.x <= COORD_LIMIT
    &&& -COORD_LIMIT <= b.current.y <= COORD_LIMIT
    &&& -COORD_LIMIT <= b.current.z <= COORD_LIMIT
    &&& -COORD_LIMIT <= b.target.x <= COORD_LIMIT
    &&& 0 <= b.target.y <= COORD_LIMIT
    &&& -COORD_LIMIT <= b.target.z <= COORD_LIMIT
    &&& -VEL_LIMIT <= b.vertical_velocity <= VEL_LIMIT
    &&& -FX_PI <= b.facing_angle <= FX_PI
}

/// The full state one tick produces. A tick with `dt <= 0` (a paused or
/// wound-back clock) is a no-op.
pub open spec fn tick_spec(b: ControlledBody, i: InputState, dt: int) -> ControlledBody {
    if dt <= 0 {
        b
    } else {
        let tx = b.target.x + step_spec(i, dt).0;
        let tz = b.target.z + step_spec(i, dt).1;
        let yv = vertical_spec(b.target.y as int, b.vertical_velocity as int, i.jump, dt);
        let facing = if input_moving(i) {
            yaw_spec(input_raw_x(i), input_raw_z(i))
        } else {
            b.facing_angle as int
        };
        ControlledBody {
            current: Vec3Fx {
                x: lerp_spec(b.current.x as int, tx, PLAYER_LERP_BLEND as int) as i64,
                y: lerp_spec(b.current.y as int, yv.0, PLAYER_LERP_BLEND as int) as i64,
                z: lerp_spec(b.current.z as int, tz, PLAYER_LERP_BLEND as int) as i64,
            },
            target: Vec3Fx { x: tx as i64, y: yv.0 as i64, z: tz as i64 },
            vertical_velocity: yv.1 as i64,
            facing_angle: facing as i64,
            is_moving: input_moving(i),
        }
    }
}

impl ControlledBody {
    /// The state a scene starts from: everything zeroed, resting on the
    /// ground.
    pub fn new() -> (r: ControlledBody)
        ensures
            r == (ControlledBody {
                current: Vec3Fx { x: 0, y: 0, z: 0 },
                target: Vec3Fx { x: 0, y: 0, z: 0 },
                vertical_velocity: 0,
                facing_angle: 0,
                is_moving: false,
            }),
            body_wf(r),
    {
        ControlledBody {
            current: Vec3Fx { x: 0, y: 0, z: 0 },
            target: Vec3Fx { x: 0, y: 0, z: 0 },
            vertical_velocity: 0,
            facing_angle: 0,
            is_moving: false,
        }
    }
}

/// Advance the motion controller by one tick: accumulate the held keys into
/// a movement direction, push the target position by the (double) scaled
/// movement, integrate gravity, handle the jump key, clamp to the ground,
/// and move the rendered position a blend step toward the target.
pub fn tick(body: &ControlledBody, input: &InputState, dt: i64) -> (r: ControlledBody)
    requires
        body_wf(*body),
        dt <= DT_MAX,
    ensures
        r == tick_spec(*body, *input, dt as int),
        dt <= 0 ==> r == *body,
        r.target.y >= 0,
        dt > 0 && input.jump && y_after_gravity_spec(*body, dt as int) <= 0 ==> r.target.y
            == JUMP_EPSILON && r.vertical_velocity == JUMP_VELOCITY,
        dt > 0 && !(input.jump && y_after_gravity_spec(*body, dt as int) <= 0)
            && y_after_gravity_spec(*body, dt as int) < 0 ==> r.target.y == 0
            && r.vertical_velocity == 0,
        -POST_TICK_LIMIT <= r.current.x <= POST_TICK_LIMIT,
        -POST_TICK_LIMIT <= r.current.y <= POST_TICK_LIMIT,
        -POST_TICK_LIMIT <= r.current.z <= POST_TICK_LIMIT,
        -POST_TICK_LIMIT <= r.target.x <= POST_TICK_LIMIT,
        -POST_TICK_LIMIT <= r.target.y <= POST_TICK_LIMIT,
        -POST_TICK_LIMIT <= r.target.z <= POST_TICK_LIMIT,
        -POST_TICK_LIMIT <= r.vertical_velocity <= POST_TICK_LIMIT,
        -FX_PI <= r.facing_angle <= FX_PI,
{
    if dt <= 0 {
        return *body;
    }
    // Horizontal movement demanded by the held keys.
    let mut mx: i64 = 0;
    let mut mz: i64 = 0;
    if input.forward {
        mx = mx - PLAYER_SPEED;
    }
    if input.back {
        mx = mx + PLAYER_SPEED;
    }
    if input.left {
        mz = mz + PLAYER_SPEED;
    }
    if input.right {
        mz = mz - PLAYER_SPEED;
    }
    assert(mx == input_raw_x(*input) && mz == input_raw_z(*input));
    let moving = mx != 0 || mz != 0;

    let spd_dt = fx_mul(PLAYER_SPEED, dt);
    proof {
        lemma_tdiv_ratio(PLAYER_SPEED as int * dt, FX_ONE as int, 14_400_000);
    }
    let mut dx: i64 = 0;
    let mut dz: i64 = 0;
    if moving {
        let u = normalize(mx, mz);
        proof {
            assert(-86_400_000_000 <= u.0 * spd_dt <= 86_400_000_000 && -86_400_000_000 <= u.1
                * spd_dt <= 86_400_000_000) by (nonlinear_arith)
                requires
                    -6000 <= u.0 <= 6000,
                    -6000 <= u.1 <= 6000,
                    0 <= spd_dt <= 14_400_000,
            ;
            lemma_tdiv_ratio(u.0 * spd_dt, FX_ONE as int, 14_400_000);
            lemma_tdiv_ratio(u.1 * spd_dt, FX_ONE as int, 14_400_000);
        }
        let sx = fx_mul(u.0, spd_dt);
        let sz = fx_mul(u.1, spd_dt);
        proof {
            assert(-207_360_000_000_000 <= sx * spd_dt <= 207_360_000_000_000
                && -207_360_000_000_000 <= sz * spd_dt <= 207_360_000_000_000)
                by (nonlinear_arith)
                requires
                    -14_400_000 <= sx <= 14_400_000,
                    -14_400_000 <= sz <= 14_400_000,
                    0 <= spd_dt <= 14_400_000,
            ;
            lemma_tdiv_ratio(sx * spd_dt, FX_ONE as int, 34_560_000_000);
            lemma_tdiv_ratio(sz * spd_dt, FX_ONE as int, 34_560_000_000);
        }
        dx = fx_mul(sx, spd_dt);
        dz = fx_mul(sz, spd_dt);
    }
    let tx = body.target.x + dx;
    let tz = body.target.z + dz;

    // Vertical kinematics: gravity, then the jump test, then the ground
    // clamp.
    let g_dt = fx_mul(GRAVITY, dt);
    proof {
        lemma_tdiv_ratio(GRAVITY as int * dt, FX_ONE as int, 60_000_000);
    }
    let vv1 = body.vertical_velocity + g_dt;
    proof {
        assert(-600_036_000_000_000_000 <= vv1 * dt <= 600_036_000_000_000_000)
            by (nonlinear_arith)
            requires
                -1_000_060_000_000 <= vv1 <= 1_000_060_000_000,
                0 <= dt <= 600_000,
        ;
        lemma_tdiv_ratio(vv1 * dt, FX_ONE as int, 100_006_000_000_000);
    }
    let dy = fx_mul(vv1, dt);
    let mut ty = body.target.y + dy;
    let mut vv2 = vv1;
    if input.jump && ty <= 0 {
        vv2 = JUMP_VELOCITY;
        ty = JUMP_EPSILON;
    } else if ty < 0 {
        ty = 0;
        vv2 = 0;
    }

    // Face the movement direction, if any.
    let facing = if moving {
        yaw_of(mx, mz)
    } else {
        body.facing_angle
    };

    // Exponential smoothing of the rendered position toward the target.
    let cx = lerp(body.current.x, tx, PLAYER_LERP_BLEND);
    let cy = lerp(body.current.y, ty, PLAYER_LERP_BLEND);
    let cz = lerp(body.current.z, tz, PLAYER_LERP_BLEND);

    ControlledBody {
        current: Vec3Fx { x: cx, y: cy, z: cz },
        target: Vec3Fx { x: tx, y: ty, z: tz },
        vertical_velocity: vv2,
        facing_angle: facing,
        is_moving: moving,
    }
}

/// One blend step of a rendered yaw toward the body's facing angle, at the
/// fixed rotation blend rate: the render layer applies this each tick
/// instead of snapping, so the visual mesh turns smoothly.
pub fn smooth_yaw(rendered: i64, facing: i64) -> (r: i64)
    requires
        -FX_PI <= rendered <= FX_PI,
        -FX_PI <= facing <= FX_PI,
    ensures
        r == lerp_spec(rendered as int, facing as int, PLAYER_ROTATION_BLEND as int),
        -FX_PI <= r <= FX_PI,
{
    lerp(rendered, facing, PLAYER_ROTATION_BLEND)
}

/// One tick's horizontal displacement can never exceed 5760 units per axis
/// (the double-scaled full-speed step over the longest admissible tick),
/// and the speed factor itself is nonnegative and bounded. This is what a
/// caller needs to budget a walk of many ticks against `COORD_LIMIT`.
pub proof fn lemma_step_bounds(i: InputState, dt: int)
    requires
        0 < dt <= DT_MAX as int,
    ensures
        0 <= speed_dt_spec(dt) <= 14_400_000,
        -34_560_000_000 <= step_spec(i, dt).0 <= 34_560_000_000,
        -34_560_000_000 <= step_spec(i, dt).1 <= 34_560_000_000,
{
    lemma_tdiv_ratio(PLAYER_SPEED as int * dt, FX_ONE as int, 14_400_000);
    lemma_div_pos_is_pos(PLAYER_SPEED as int * dt, FX_ONE as int);
    if input_moving(i) {
        let mx = input_raw_x(i);
        let mz = input_raw_z(i);
        lemma_norm_bounds(mx, mz);
        let ux = norm_x_spec(mx, mz);
        let uz = norm_z_spec(mx, mz);
        let s = speed_dt_spec(dt);
        assert(-86_400_000_000 <= ux * s <= 86_400_000_000 && -86_400_000_000 <= uz * s
            <= 86_400_000_000) by (nonlinear_arith)
            requires
                -6000 <= ux <= 6000,
                -6000 <= uz <= 6000,
                0 <= s <= 14_400_000,
        ;
        lemma_tdiv_ratio(ux * s, FX_ONE as int, 14_400_000);
        lemma_tdiv_ratio(uz * s, FX_ONE as int, 14_400_000);
        let sx = fx_mul_spec(ux, s);
        let sz = fx_mul_spec(uz, s);
        assert(-207_360_000_000_000 <= sx * s <= 207_360_000_000_000 && -207_360_000_000_000 <= sz
            * s <= 207_360_000_000_000) by (nonlinear_arith)
            requires
                -14_400_000 <= sx <= 14_400_000,
                -14_400_000 <= sz <= 14_400_000,
                0 <= s <= 14_400_000,
        ;
        lemma_tdiv_ratio(sx * s, FX_ONE as int, 34_560_000_000);
        lemma_tdiv_ratio(sz * s, FX_ONE as int, 34_560_000_000);
    }
}

/// A tick taken from a well-formed body stays well formed, as long as the
/// horizontal step keeps the target inside the world, the post-gravity
/// height does too, and the vertical velocity has one gravity step of
/// headroom left. With this a verified caller can iterate ticks, budgeting
/// the walk with `lemma_step_bounds`.
pub proof fn lemma_tick_preserves_wf(b: ControlledBody, i: InputState, dt: int)
    requires
        body_wf(b),
        0 < dt <= DT_MAX as int,
        -COORD_LIMIT as int <= b.target.x + step_spec(i, dt).0 <= COORD_LIMIT as int,
        -COORD_LIMIT as int <= b.target.z + step_spec(i, dt).1 <= COORD_LIMIT as int,
        y_after_gravity_spec(b, dt) <= COORD_LIMIT as int,
        b.vertical_velocity >= -VEL_LIMIT + 60_000_000,
    ensures
        body_wf(tick_spec(b, i, dt)),
{
    let r = tick_spec(b, i, dt);
    // Gravity changes the velocity by at most one step downward.
    assert(-360_000_000_000 <= GRAVITY as int * dt <= 0) by (nonlinear_arith)
        requires
            GRAVITY == -600000,
            0 < dt <= 600_000,
    ;
    lemma_tdiv_ratio(GRAVITY as int * dt, FX_ONE as int, 60_000_000);
    lemma_div_pos_is_pos(-(GRAVITY as int * dt), FX_ONE as int);
    let vv1 = gravity_velocity_spec(b.vertical_velocity as int, dt);
    assert(-VEL_LIMIT <= vv1 <= VEL_LIMIT);
    // The new target height is the epsilon, the ground, or the bounded
    // post-gravity height.
    assert(0 <= r.target.y <= COORD_LIMIT);
    // The facing angle is one of the eight yaw constants or unchanged.
    assert(-FX_PI <= r.facing_angle <= FX_PI);
    // The rendered position is interpolated, so it stays between its old
    // value and the new target, both inside the world.
    crate::fx::lemma_fx_scale_bounds(r.target.x - b.current.x, PLAYER_LERP_BLEND as int);
    crate::fx::lemma_fx_scale_bounds(r.target.y - b.current.y, PLAYER_LERP_BLEND as int);
    crate::fx::lemma_fx_scale_bounds(r.target.z - b.current.z, PLAYER_LERP_BLEND as int);
}

/// With no direction held, a tick leaves the horizontal target, the facing
/// angle and the movement flag alone (only gravity can move the target, in
/// `y`), and the rendered position moves toward the new target without ever
/// overshooting it, on each axis.
pub proof fn lemma_coast_tick(b: ControlledBody, i: InputState, dt: int)
    requires
        body_wf(b),
        0 < dt <= DT_MAX as int,
        !i.forward,
        !i.back,
        !i.left,
        !i.right,
    ensures
        tick_spec(b, i, dt).target.x == b.target.x,
        tick_spec(b, i, dt).target.z == b.target.z,
        tick_spec(b, i, dt).facing_angle == b.facing_angle,
        !tick_spec(b, i, dt).is_moving,
        b.current.x <= tick_spec(b, i, dt).target.x ==> b.current.x <= tick_spec(b, i, dt).current.x
            <= tick_spec(b, i, dt).target.x,
        tick_spec(b, i, dt).target.x <= b.current.x ==> tick_spec(b, i, dt).target.x <= tick_spec(
            b,
            i,
            dt,
        ).current.x <= b.current.x,
        b.current.y <= tick_spec(b, i, dt).target.y ==> b.current.y <= tick_spec(b, i, dt).current.y
            <= tick_spec(b, i, dt).target.y,
        tick_spec(b, i, dt).target.y <= b.current.y ==> tick_spec(b, i, dt).target.y <= tick_spec(
            b,
            i,
            dt,
        ).current.y <= b.current.y,
        b.current.z <= tick_spec(b, i, dt).target.z ==> b.current.z <= tick_spec(b, i, dt).current.z
            <= tick_spec(b, i, dt).target.z,
        tick_spec(b, i, dt).target.z <= b.current.z ==> tick_spec(b, i, dt).target.z <= tick_spec(
            b,
            i,
            dt,
        ).current.z <= b.current.z,
{
    let r = tick_spec(b, i, dt);
    assert(!input_moving(i));
    // The new target height stays well inside i64.
    crate::fx::lemma_tdiv_ratio(GRAVITY as int * dt, FX_ONE as int, 60_000_000);
    let vv1 = gravity_velocity_spec(b.vertical_velocity as int, dt);
    assert(-600_036_000_000_000_000 <= vv1 * dt <= 600_036_000_000_000_000) by (nonlinear_arith)
        requires
            -1_000_060_000_000 <= vv1 <= 1_000_060_000_000,
            0 <= dt <= 600_000,
    ;
    crate::fx::lemma_tdiv_ratio(vv1 * dt, FX_ONE as int, 100_006_000_000_000);
    crate::fx::lemma_fx_scale_bounds(r.target.x - b.current.x, PLAYER_LERP_BLEND as int);
    crate::fx::lemma_fx_scale_bounds(r.target.y - b.current.y, PLAYER_LERP_BLEND as int);
    crate::fx::lemma_fx_scale_bounds(r.target.z - b.current.z, PLAYER_LERP_BLEND as int);
}

/// A jump key pressed while the body would still be above the ground after
/// gravity has acted does nothing: the tick comes out exactly as if the key
/// had not been pressed. (No double jumps.)
pub proof fn lemma_jump_ignored_in_air(b: ControlledBody, i: InputState, j: InputState, dt: int)
    requires
        body_wf(b),
        0 < dt <= DT_MAX as int,
        y_after_gravity_spec(b, dt) > 0,
        i.forward == j.forward,
        i.back == j.back,
        i.left == j.left,
        i.right == j.right,
        i.jump,
        !j.jump,
    ensures
        tick_spec(b, i, dt) == tick_spec(b, j, dt),
{
    assert(input_raw_x(i) == input_raw_x(j) && input_raw_z(i) == input_raw_z(j));
    assert(vertical_spec(b.target.y as int, b.vertical_velocity as int, i.jump, dt)
        == vertical_spec(b.target.y as int, b.vertical_velocity as int, j.jump, dt));
}

} // verus!
