//! The follow camera.
//!
//! The camera pose is a pure function of the controlled body's rendered
//! position: a constant offset for the translation, and the body itself as
//! the look-at target. The camera keeps no state of its own, so it can never
//! drift; all visual softness comes from the body's own position smoothing.

use vstd::prelude::*;
use crate::motion::Vec3Fx;

verus! {

/// Camera offset east of the body, 8 units.
pub const CAMERA_OFFSET_X: i64 = 48000;

/// Camera offset above the body, 8 units.
pub const CAMERA_OFFSET_Y: i64 = 48000;

/// Camera offset along z: none.
pub const CAMERA_OFFSET_Z: i64 = 0;

/// A camera pose: where the camera sits and what it looks at, with world-up
/// `(0, 1, 0)` understood.
#[derive(Clone, Copy, Debug, PartialEq, Eq, Structural)]
pub struct CameraPose {
    pub position: Vec3Fx,
    pub look_at_target: Vec3Fx,
}

/// The pose that follows a body rendered at `p`: the constant offset added
/// to `p`, looking back at `p`.
pub open spec fn follow_pose_spec(p: Vec3Fx) -> CameraPose {
    CameraPose {
        position: Vec3Fx {
            x: (p.x + CAMERA_OFFSET_X as int) as i64,
            y: (p.y + CAMERA_OFFSET_Y as int) as i64,
            z: (p.z + CAMERA_OFFSET_Z as int) as i64,
        },
        look_at_target: p,
    }
}

impl CameraPose {
    /// The pose a scene starts from: at the bare offset, looking at the
    /// origin.
    pub fn new() -> (r: CameraPose)
        ensures
            r == follow_pose_spec(Vec3Fx { x: 0, y: 0, z: 0 }),
    {
        CameraPose {
            position: Vec3Fx { x: CAMERA_OFFSET_X, y: CAMERA_OFFSET_Y, z: CAMERA_OFFSET_Z },
            look_at_target: Vec3Fx { x: 0, y: 0, z: 0 },
        }
    }
}

/// The camera pose for a body rendered at `p`. The offset between camera
/// and body is exactly the constant offset, for every `p`: the camera is
/// rigidly attached and accumulates no state.
pub fn follow_camera(p: &Vec3Fx) -> (r: CameraPose)
    requires
        p.x + CAMERA_OFFSET_X <= i64::MAX,
        p.y + CAMERA_OFFSET_Y <= i64::MAX,
        p.z + CAMERA_OFFSET_Z <= i64::MAX,
    ensures
        r == follow_pose_spec(*p),
        r.position.x - p.x == CAMERA_OFFSET_X,
        r.position.y - p.y == CAMERA_OFFSET_Y,
        r.position.z - p.z == CAMERA_OFFSET_Z,
        r.look_at_target == *p,
{
    CameraPose {
        position: Vec3Fx {
            x: p.x + CAMERA_OFFSET_X,
            y: p.y + CAMERA_OFFSET_Y,
            z: p.z + CAMERA_OFFSET_Z,
        },
        look_at_target: *p,
    }
}

/// One camera update. While no controlled body exists (not yet spawned, or
/// already despawned), the update is a no-op and keeps the old pose; it
/// never fails.
pub fn update_camera(pose: &CameraPose, body_current: Option<&Vec3Fx>) -> (r: CameraPose)
    requires
        body_current matches Some(p) ==> p.x + CAMERA_OFFSET_X <= i64::MAX && p.y + CAMERA_OFFSET_Y
            <= i64::MAX && p.z + CAMERA_OFFSET_Z <= i64::MAX,
    ensures
        body_current is None ==> r == *pose,
        body_current matches Some(p) ==> r == follow_pose_spec(*p),
{
    match body_current {
        None => *pose,
        Some(p) => follow_camera(p),
    }
}

} // verus!
