//! One simulated frame.
//!
//! Each frame advances the components in a strict order: sampled input
//! drives the motion controller, then the follow camera reads the body's
//! rendered position. The scene render and the compositing stage follow on
//! the render side; their order over frames is the host loop's business,
//! the state updates here are pure.

use vstd::prelude::*;
use crate::motion::ControlledBody;
use crate::motion::InputState;
use crate::motion::body_wf;
use crate::motion::tick;
use crate::motion::tick_spec;
use crate::motion::DT_MAX;
use crate::camera::CameraPose;
use crate::camera::follow_camera;
use crate::camera::follow_pose_spec;

verus! {

/// Advance the motion controller by one tick and derive the camera pose
/// from the body it produces, in that order: the camera always sees the
/// freshly updated rendered position.
pub fn simulate_frame(body: &ControlledBody, input: &InputState, dt: i64) -> (r: (
    ControlledBody,
    CameraPose,
))
    requires
        body_wf(*body),
        dt <= DT_MAX,
    ensures
        r.0 == tick_spec(*body, *input, dt as int),
        r.1 == follow_pose_spec(r.0.current),
{
    let b = tick(body, input, dt);
    let pose = follow_camera(&b.current);
    (b, pose)
}

} // verus!
