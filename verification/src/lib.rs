//! A verified core for a small real-time character demo scene: a character
//! motion controller driven by discrete key input, a rigidly attached follow
//! camera, and a screen-space post-processing stage (intensity scaling, a
//! CRT curve with vignette, and a box blur).
//!
//! All quantities are fixed-point numbers: an `i64` counts units of
//! `1 / FX_ONE`. This keeps every update step exact and lets the library
//! state, for each tick, precisely which state comes out of it.

pub mod anim;
pub mod camera;
pub mod frame;
pub mod fx;
pub mod motion;
pub mod post;
pub mod settings;
