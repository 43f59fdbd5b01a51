//! Control core of a grid-simulation viewer.
//!
//! The library turns per-tick input snapshots into camera motion and zoom,
//! and pointer interaction with menu buttons into one-shot lifecycle events.
//! Speeds, positions and the projection scale are held as fixed-point
//! integers with a denominator of one million, so every clamp, accumulation
//! and boundary rule is exact and provable.

use vstd::prelude::*;

pub mod camera;
pub mod input;
pub mod ui;
pub mod window;

verus! {

/// Fixed-point unit: the integer that stands for the real value 1.0.
pub const FP_ONE: i64 = 1_000_000;

/// Clamp bound for each component of the camera's plane speed (15.0).
pub const CAMERA_MOVE_SPEED: i64 = 15_000_000;

/// Clamp bound for the camera's zoom speed (1.0).
pub const CAMERA_ZOOM_SPEED: i64 = 1_000_000;

/// Per-tick contribution of a held zoom key (0.01).
pub const ZOOM_STEP: i64 = 10_000;

/// Lower bound of the projection scale (1.0).
pub const SCALE_MIN: i64 = 1_000_000;

/// Upper bound of the projection scale (6.0).
pub const SCALE_MAX: i64 = 6_000_000;

/// Width of the band around a scale bound that counts as "at the limit"
/// (0.00001).
pub const ZOOM_LIMIT_EPS: i64 = 10;

/// Fixed-point component of a unit diagonal direction (1 / sqrt(2), rounded
/// to the nearest fixed-point step).
pub const DIAG_UNIT: i64 = 707_107;

} // verus!
