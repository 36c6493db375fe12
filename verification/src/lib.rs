//! Keyboard-driven orbit camera: the mapping from held keys to an orbit
//! intent, and the per-frame update of the camera's two angles.
//!
//! Angles are fixed-point, in whole nanoradians; elapsed time is in whole
//! nanoseconds. Everything here is integer arithmetic, proved free of
//! overflow.

pub mod actions;
pub mod keyboard;
pub mod simple_scene;
