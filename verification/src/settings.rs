//! User-adjustable camera settings and their depth-of-field output.
//!
//! The settings form a small parameter object: a focal distance the user can
//! nudge up and down (never below a minimum), an aperture, and an optional
//! depth-of-field mode. Each tick the settings are turned into a concrete
//! depth-of-field parameter block for the renderer, or into none at all when
//! the effect is switched off.

use vstd::prelude::*;

verus! {

/// How far the focal distance moves per tick while an arrow key is held,
/// 0.05 units.
pub const FOCAL_DISTANCE_SPEED: i64 = 300;

/// The focal distance can never be adjusted below 0.01 units.
pub const MIN_FOCAL_DISTANCE: i64 = 60;

/// Focal distance a scene starts with, 11 units.
pub const DEFAULT_FOCAL_DISTANCE: i64 = 66000;

/// Aperture a scene starts with, 1/30 f-stops.
pub const DEFAULT_APERTURE_F_STOPS: i64 = 200;

/// Depth beyond which the depth-of-field effect saturates, 14 units.
pub const DOF_MAX_DEPTH: i64 = 84000;

/// Largest focal-distance magnitude `adjust_focus` accepts; keeps the
/// adjustment from overflowing.
pub const FOCAL_LIMIT: i64 = 1_000_000_000_000;

/// The two depth-of-field algorithms a camera can run.
#[derive(Clone, Copy, Debug, PartialEq, Eq, Structural)]
pub enum DofMode {
    Gaussian,
    Bokeh,
}

/// The settings the user can change.
#[derive(Clone, Copy, Debug, PartialEq, Eq, Structural)]
pub struct AppSettings {
    pub focal_distance: i64,
    pub aperture_f_stops: i64,
    pub mode: Option<DofMode>,
}

impl Default for AppSettings {
    /// The settings a scene starts with: focal distance 11, aperture 1/30,
    /// bokeh depth of field.
    fn default() -> (r: AppSettings)
        ensures
            r == (AppSettings {
                focal_distance: DEFAULT_FOCAL_DISTANCE,
                aperture_f_stops: DEFAULT_APERTURE_F_STOPS,
                mode: Some(DofMode::Bokeh),
            }),
    {
        AppSettings {
            focal_distance: DEFAULT_FOCAL_DISTANCE,
            aperture_f_stops: DEFAULT_APERTURE_F_STOPS,
            mode: Some(DofMode::Bokeh),
        }
    }
}

/// The focal-distance change one tick applies: down takes precedence over
/// up, and no key means no change.
pub open spec fn focus_delta_spec(up: bool, down: bool) -> int {
    if down {
        -FOCAL_DISTANCE_SPEED as int
    } else if up {
        FOCAL_DISTANCE_SPEED as int
    } else {
        0
    }
}

/// Adjust the focal distance by the held arrow keys, clamping from below so
/// it never falls below the minimum. Aperture and mode are untouched.
pub fn adjust_focus(s: &AppSettings, up_pressed: bool, down_pressed: bool) -> (r: AppSettings)
    requires
        -FOCAL_LIMIT <= s.focal_distance <= FOCAL_LIMIT,
    ensures
        r.focal_distance == if s.focal_distance + focus_delta_spec(up_pressed, down_pressed)
            >= MIN_FOCAL_DISTANCE {
            s.focal_distance + focus_delta_spec(up_pressed, down_pressed)
        } else {
            MIN_FOCAL_DISTANCE as int
        },
        r.focal_distance >= MIN_FOCAL_DISTANCE,
        r.aperture_f_stops == s.aperture_f_stops,
        r.mode == s.mode,
{
    let delta: i64 = if down_pressed {
        -FOCAL_DISTANCE_SPEED
    } else if up_pressed {
        FOCAL_DISTANCE_SPEED
    } else {
        0
    };
    let moved = s.focal_distance + delta;
    let focal = if moved >= MIN_FOCAL_DISTANCE {
        moved
    } else {
        MIN_FOCAL_DISTANCE
    };
    AppSettings { focal_distance: focal, aperture_f_stops: s.aperture_f_stops, mode: s.mode }
}

/// The depth-of-field parameter block handed to a camera each tick.
#[derive(Clone, Copy, Debug, PartialEq, Eq, Structural)]
pub struct DofSettings {
    pub mode: DofMode,
    pub focal_distance: i64,
    pub aperture_f_stops: i64,
    pub max_depth: i64,
}

/// The depth-of-field block the settings describe: one per mode, carrying
/// the current focal distance and aperture, or none while the effect is off.
pub fn dof_settings_of(s: &AppSettings) -> (r: Option<DofSettings>)
    ensures
        s.mode is None ==> r is None,
        s.mode matches Some(m) ==> r == Some(
            DofSettings {
                mode: m,
                focal_distance: s.focal_distance,
                aperture_f_stops: s.aperture_f_stops,
                max_depth: DOF_MAX_DEPTH,
            },
        ),
{
    match s.mode {
        None => None,
        Some(m) => Some(
            DofSettings {
                mode: m,
                focal_distance: s.focal_distance,
                aperture_f_stops: s.aperture_f_stops,
                max_depth: DOF_MAX_DEPTH,
            },
        ),
    }
}

} // verus!
