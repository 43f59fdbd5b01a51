//! Decision rules of the window-control systems.
//!
//! The application shell toggles vsync, toggles cursor grabbing and cycles
//! the cursor icon in reaction to key and mouse presses. The window calls
//! themselves belong to the shell; the rules that pick the next mode or
//! icon index live here.

use vstd::prelude::*;

verus! {

/// The presentation mode of the window: vsync on or off.
#[derive(Clone, Copy, PartialEq, Eq, Structural, Debug)]
pub enum PresentMode {
    AutoVsync,
    AutoNoVsync,
}

/// How the window holds the cursor.
#[derive(Clone, Copy, PartialEq, Eq, Structural, Debug)]
pub enum CursorGrab {
    Released,
    Locked,
    Confined,
}

/// The presentation mode after a vsync toggle.
pub open spec fn toggled_present_mode(m: PresentMode) -> PresentMode {
    match m {
        PresentMode::AutoVsync => PresentMode::AutoNoVsync,
        PresentMode::AutoNoVsync => PresentMode::AutoVsync,
    }
}

/// The grab mode after a cursor toggle: a released cursor is locked, a held
/// one is released.
pub open spec fn toggled_grab(m: CursorGrab) -> CursorGrab {
    match m {
        CursorGrab::Released => CursorGrab::Locked,
        CursorGrab::Locked => CursorGrab::Released,
        CursorGrab::Confined => CursorGrab::Released,
    }
}

/// Toggle the window's presentation mode between vsync on and off.
pub fn toggle_present_mode(m: PresentMode) -> (r: PresentMode)
    ensures
        r == toggled_present_mode(m),
{
    match m {
        PresentMode::AutoVsync => PresentMode::AutoNoVsync,
        PresentMode::AutoNoVsync => PresentMode::AutoVsync,
    }
}

/// Toggle the cursor's grab mode and visibility together: grabbing the
/// cursor hides it, releasing it shows it again.
pub fn toggle_cursor(grab: CursorGrab, visible: bool) -> (r: (CursorGrab, bool))
    ensures
        r.0 == toggled_grab(grab),
        r.1 == !visible,
{
    let next = match grab {
        CursorGrab::Released => CursorGrab::Locked,
        CursorGrab::Locked => CursorGrab::Released,
        CursorGrab::Confined => CursorGrab::Released,
    };
    (next, !visible)
}

/// The next position when cycling through a fixed list of cursor icons:
/// forward steps wrap from the last icon to the first, backward steps wrap
/// from the first to the last.
pub fn cycle_index(index: usize, len: usize, forward: bool) -> (r: usize)
    requires
        len > 0,
        index < len,
    ensures
        forward ==> r == (index + 1) % (len as int),
        !forward && index == 0 ==> r == len - 1,
        !forward && index > 0 ==> r == index - 1,
        r < len,
{
    if forward {
        (index + 1) % len
    } else if index == 0 {
        len - 1
    } else {
        index - 1
    }
}

} // verus!
