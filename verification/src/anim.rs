//! Animation selection.
//!
//! The scene keeps a fixed list of animation clips; the controller only ever
//! decides, from the body's movement flag, which clip slot to stop and which
//! to play, at what speed. Carrying the clips themselves is the host
//! renderer's business; the decision is pure.

use vstd::prelude::*;
use crate::fx::FX_ONE;

verus! {

/// Slot of the locomotion clip in the scene's animation list.
pub const RUN_SLOT: usize = 0;

/// Slot of the idle clip in the scene's animation list.
pub const IDLE_SLOT: usize = 2;

/// Playback speed of the locomotion clip, 3x.
pub const RUN_SPEED: i64 = 18000;

/// Playback speed of the very first clip started when the scene has loaded,
/// 2x.
pub const INITIAL_SPEED: i64 = 12000;

/// What the animation player should do this tick: stop one slot, then play
/// another at the given fixed-point speed, repeating or not.
#[derive(Clone, Copy, Debug, PartialEq, Eq, Structural)]
pub struct AnimationAction {
    pub stop_slot: usize,
    pub play_slot: usize,
    pub speed: i64,
    pub repeat: bool,
}

/// The action for a body that is (or is not) moving: swap between the
/// locomotion clip at triple speed and the idle clip at normal speed, both
/// repeating.
pub fn select_animation(is_moving: bool) -> (r: AnimationAction)
    ensures
        is_moving ==> r == (AnimationAction {
            stop_slot: IDLE_SLOT,
            play_slot: RUN_SLOT,
            speed: RUN_SPEED,
            repeat: true,
        }),
        !is_moving ==> r == (AnimationAction {
            stop_slot: RUN_SLOT,
            play_slot: IDLE_SLOT,
            speed: FX_ONE,
            repeat: true,
        }),
{
    if is_moving {
        AnimationAction { stop_slot: IDLE_SLOT, play_slot: RUN_SLOT, speed: RUN_SPEED, repeat: true }
    } else {
        AnimationAction { stop_slot: RUN_SLOT, play_slot: IDLE_SLOT, speed: FX_ONE, repeat: true }
    }
}

/// The clip started once the scene has loaded: the idle clip at double
/// speed, played once.
pub fn initial_animation() -> (r: AnimationAction)
    ensures
        r == (AnimationAction {
            stop_slot: IDLE_SLOT,
            play_slot: IDLE_SLOT,
            speed: INITIAL_SPEED,
            repeat: false,
        }),
{
    AnimationAction {
        stop_slot: IDLE_SLOT,
        play_slot: IDLE_SLOT,
        speed: INITIAL_SPEED,
        repeat: false,
    }
}

} // verus!
