//! Per-tick input snapshots and the movement-direction rule.
//!
//! A snapshot records which control keys are held during one tick. The
//! controllers are pure functions of (state, snapshot), so they can be run
//! and reasoned about without a live input backend.

use vstd::prelude::*;

verus! {

use crate::DIAG_UNIT;
use crate::FP_ONE;

/// The pressed state of every key the control core reads, sampled once at
/// the start of a tick.
#[derive(Clone, Copy, PartialEq, Eq, Structural, Debug)]
pub struct KeyInput {
    /// Move the camera towards +y.
    pub forward: bool,
    /// Move the camera towards -y.
    pub backward: bool,
    /// Move the camera towards -x.
    pub left: bool,
    /// Move the camera towards +x.
    pub right: bool,
    /// Zero the accumulated plane and zoom speeds this tick.
    pub reset: bool,
    /// Zoom in: drive the projection scale towards its lower bound.
    pub zoom_in: bool,
    /// Zoom out: drive the projection scale towards its upper bound.
    pub zoom_out: bool,
}

/// Raw x direction before normalization: +1 for right, -1 for left,
/// 0 when neither or both are held.
pub open spec fn raw_dir_x(k: KeyInput) -> int {
    (if k.right { 1int } else { 0int }) - (if k.left { 1int } else { 0int })
}

/// Raw y direction before normalization: +1 for forward, -1 for backward,
/// 0 when neither or both are held.
pub open spec fn raw_dir_y(k: KeyInput) -> int {
    (if k.forward { 1int } else { 0int }) - (if k.backward { 1int } else { 0int })
}

/// Fixed-point x component of the normalized direction. An axis-aligned
/// direction has unit length; a diagonal one is scaled so that its length is
/// one as well, and the zero vector stays zero.
pub open spec fn norm_x(k: KeyInput) -> int {
    if raw_dir_x(k) == 0 {
        0int
    } else if raw_dir_y(k) == 0 {
        raw_dir_x(k) * (FP_ONE as int)
    } else {
        raw_dir_x(k) * (DIAG_UNIT as int)
    }
}

/// Fixed-point y component of the normalized direction.
pub open spec fn norm_y(k: KeyInput) -> int {
    if raw_dir_y(k) == 0 {
        0int
    } else if raw_dir_x(k) == 0 {
        raw_dir_y(k) * (FP_ONE as int)
    } else {
        raw_dir_y(k) * (DIAG_UNIT as int)
    }
}

impl KeyInput {
    /// A snapshot with every key released.
    pub fn released() -> (k: KeyInput)
        ensures
            !k.forward,
            !k.backward,
            !k.left,
            !k.right,
            !k.reset,
            !k.zoom_in,
            !k.zoom_out,
    {
        KeyInput {
            forward: false,
            backward: false,
            left: false,
            right: false,
            reset: false,
            zoom_in: false,
            zoom_out: false,
        }
    }
}

/// The normalized movement direction read from a snapshot, as fixed-point
/// (x, y) components. Opposing keys cancel exactly, and the result never
/// exceeds unit length in either component.
pub fn direction(k: &KeyInput) -> (d: (i64, i64))
    ensures
        d.0 == norm_x(*k),
        d.1 == norm_y(*k),
        -FP_ONE <= d.0 <= FP_ONE,
        -FP_ONE <= d.1 <= FP_ONE,
{
    let mut rx: i64 = 0;
    let mut ry: i64 = 0;
    if k.forward {
        ry = ry + 1;
    }
    if k.right {
        rx = rx + 1;
    }
    if k.backward {
        ry = ry - 1;
    }
    if k.left {
        rx = rx - 1;
    }
    if rx == 0 && ry == 0 {
        (0, 0)
    } else if ry == 0 {
        (rx * FP_ONE, 0)
    } else if rx == 0 {
        (0, ry * FP_ONE)
    } else {
        (rx * DIAG_UNIT, ry * DIAG_UNIT)
    }
}

/// Opposing movement keys held in the same tick contribute nothing to the
/// direction vector on their axis.
pub proof fn lemma_opposing_keys_cancel(k: KeyInput)
    ensures
        k.forward && k.backward ==> raw_dir_y(k) == 0 && norm_y(k) == 0,
        k.left && k.right ==> raw_dir_x(k) == 0 && norm_x(k) == 0,
{
}

} // verus!
