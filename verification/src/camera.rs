//! Camera state and the two fixed-tick controllers.
//!
//! The camera owns a plane position, a projection scale and a `Movement`
//! accumulator. Once per fixed tick the motion controller integrates the
//! pressed-key direction into `plane_speed` and applies it to the position,
//! and the zoom controller integrates the zoom keys into `zoom_speed` and
//! applies it to the scale, with clamping and a boundary auto-reset.

use vstd::prelude::*;

verus! {

use crate::input::KeyInput;
use crate::input::norm_x;
use crate::input::norm_y;
use crate::input::direction;
use crate::CAMERA_MOVE_SPEED;
use crate::CAMERA_ZOOM_SPEED;
use crate::SCALE_MAX;
use crate::SCALE_MIN;
use crate::ZOOM_LIMIT_EPS;
use crate::ZOOM_STEP;

/// A plane vector in fixed-point units; only x and y carry meaning for
/// camera motion, z is kept at zero.
#[derive(Clone, Copy, PartialEq, Eq, Structural, Debug)]
pub struct PlaneVec {
    pub x: i64,
    pub y: i64,
    pub z: i64,
}

/// The velocity accumulator owned by the camera: a clamped plane speed and a
/// clamped zoom speed.
#[derive(Clone, Copy, PartialEq, Eq, Structural, Debug)]
pub struct Movement {
    pub plane_speed: PlaneVec,
    pub zoom_speed: i64,
}

/// The single camera: plane position, projection scale and its `Movement`
/// accumulator. Exactly one instance is created at startup and mutated only
/// by the two controllers.
#[derive(Clone, Copy, PartialEq, Eq, Structural, Debug)]
pub struct Camera {
    pub translation: PlaneVec,
    pub scale: i64,
    pub movement: Movement,
}

/// A value clamped to the closed interval [lo, hi].
pub open spec fn clamped(v: int, lo: int, hi: int) -> int {
    if v < lo {
        lo
    } else if v > hi {
        hi
    } else {
        v
    }
}

/// Addition on i64 that saturates at the type's bounds instead of wrapping.
pub open spec fn sat_add(a: int, b: int) -> int {
    if a + b > i64::MAX {
        i64::MAX as int
    } else if a + b < i64::MIN {
        i64::MIN as int
    } else {
        a + b
    }
}

/// The camera's invariant: every plane-speed component lies in
/// [-CAMERA_MOVE_SPEED, CAMERA_MOVE_SPEED], the zoom speed lies in
/// [-CAMERA_ZOOM_SPEED, CAMERA_ZOOM_SPEED], and the scale lies in
/// [SCALE_MIN, SCALE_MAX].
pub open spec fn camera_wf(c: Camera) -> bool {
    &&& -(CAMERA_MOVE_SPEED as int) <= c.movement.plane_speed.x <= CAMERA_MOVE_SPEED as int
    &&& -(CAMERA_MOVE_SPEED as int) <= c.movement.plane_speed.y <= CAMERA_MOVE_SPEED as int
    &&& -(CAMERA_MOVE_SPEED as int) <= c.movement.plane_speed.z <= CAMERA_MOVE_SPEED as int
    &&& -(CAMERA_ZOOM_SPEED as int) <= c.movement.zoom_speed <= CAMERA_ZOOM_SPEED as int
    &&& SCALE_MIN as int <= c.scale <= SCALE_MAX as int
}

/// The plane speed after one motion tick: the normalized direction is added
/// and each component clamped independently, unless the reset key wins and
/// zeroes the whole vector.
pub open spec fn next_plane_speed(c: Camera, k: KeyInput) -> PlaneVec {
    if k.reset {
        PlaneVec { x: 0, y: 0, z: 0 }
    } else {
        PlaneVec {
            x: clamped(
                c.movement.plane_speed.x + norm_x(k),
                -(CAMERA_MOVE_SPEED as int),
                CAMERA_MOVE_SPEED as int,
            ) as i64,
            y: clamped(
                c.movement.plane_speed.y + norm_y(k),
                -(CAMERA_MOVE_SPEED as int),
                CAMERA_MOVE_SPEED as int,
            ) as i64,
            z: clamped(
                c.movement.plane_speed.z as int,
                -(CAMERA_MOVE_SPEED as int),
                CAMERA_MOVE_SPEED as int,
            ) as i64,
        }
    }
}

/// The whole camera after one motion tick: the new plane speed is written
/// into the accumulator and added to the position (Euler integration at the
/// fixed step, saturating at the machine bounds); zoom speed and scale are
/// untouched.
pub open spec fn move_spec(c: Camera, k: KeyInput) -> Camera {
    let sp = next_plane_speed(c, k);
    Camera {
        translation: PlaneVec {
            x: sat_add(c.translation.x as int, sp.x as int) as i64,
            y: sat_add(c.translation.y as int, sp.y as int) as i64,
            z: sat_add(c.translation.z as int, sp.z as int) as i64,
        },
        scale: c.scale,
        movement: Movement { plane_speed: sp, zoom_speed: c.movement.zoom_speed },
    }
}

/// The per-tick zoom contribution of the two zoom keys: zoom-out drives the
/// scale up, zoom-in drives it down, both at once cancel.
pub open spec fn zoom_delta(k: KeyInput) -> int {
    (if k.zoom_out { ZOOM_STEP as int } else { 0int }) - (if k.zoom_in {
        ZOOM_STEP as int
    } else {
        0int
    })
}

/// The zoom speed after accumulation and clamping, with the reset key
/// winning over accumulation in the same tick.
pub open spec fn accum_zoom_speed(c: Camera, k: KeyInput) -> int {
    if k.reset {
        0int
    } else {
        clamped(
            c.movement.zoom_speed + zoom_delta(k),
            -(CAMERA_ZOOM_SPEED as int),
            CAMERA_ZOOM_SPEED as int,
        )
    }
}

/// The projection scale after the accumulated zoom speed is applied and the
/// result clamped to [SCALE_MIN, SCALE_MAX].
pub open spec fn next_scale(c: Camera, k: KeyInput) -> int {
    clamped(c.scale + accum_zoom_speed(c, k), SCALE_MIN as int, SCALE_MAX as int)
}

/// Whether a scale value sits within the boundary band of either bound.
pub open spec fn at_zoom_limit(s: int) -> bool {
    ||| -(ZOOM_LIMIT_EPS as int) < s - SCALE_MIN < ZOOM_LIMIT_EPS as int
    ||| -(ZOOM_LIMIT_EPS as int) < s - SCALE_MAX < ZOOM_LIMIT_EPS as int
}

/// The zoom speed after one zoom tick: the accumulated speed, forced to zero
/// when the new scale has reached a bound, so the user never has to cross
/// zero before reversing direction.
pub open spec fn next_zoom_speed(c: Camera, k: KeyInput) -> int {
    if at_zoom_limit(next_scale(c, k)) {
        0int
    } else {
        accum_zoom_speed(c, k)
    }
}

/// The whole camera after one zoom tick; position and plane speed are
/// untouched.
pub open spec fn zoom_spec(c: Camera, k: KeyInput) -> Camera {
    Camera {
        translation: c.translation,
        scale: next_scale(c, k) as i64,
        movement: Movement {
            plane_speed: c.movement.plane_speed,
            zoom_speed: next_zoom_speed(c, k) as i64,
        },
    }
}

/// One full fixed tick: the motion controller followed by the zoom
/// controller. The two touch disjoint fields, so this order is also the
/// result of running them the other way round.
pub open spec fn tick_spec(c: Camera, k: KeyInput) -> Camera {
    zoom_spec(move_spec(c, k), k)
}

/// The camera after a whole sequence of ticks, first snapshot first.
pub open spec fn run_spec(c: Camera, ks: Seq<KeyInput>) -> Camera
    decreases ks.len(),
{
    if ks.len() == 0 {
        c
    } else {
        run_spec(tick_spec(c, ks[0]), ks.subrange(1, ks.len() as int))
    }
}

/// A value clamped to a closed interval.
pub fn clamp_i64(v: i64, lo: i64, hi: i64) -> (r: i64)
    requires
        lo <= hi,
    ensures
        r == clamped(v as int, lo as int, hi as int),
{
    if v < lo {
        lo
    } else if v > hi {
        hi
    } else {
        v
    }
}

/// Saturating addition on i64.
pub fn sat_add_i64(a: i64, b: i64) -> (r: i64)
    ensures
        r == sat_add(a as int, b as int),
{
    let s: i128 = a as i128 + b as i128;
    if s > i64::MAX as i128 {
        i64::MAX
    } else if s < i64::MIN as i128 {
        i64::MIN
    } else {
        s as i64
    }
}

impl Camera {
    /// The camera created at startup: position zero, default scale, and a
    /// zeroed movement accumulator.
    pub fn new() -> (c: Camera)
        ensures
            c.translation == (PlaneVec { x: 0, y: 0, z: 0 }),
            c.scale == SCALE_MIN,
            c.movement.plane_speed == (PlaneVec { x: 0, y: 0, z: 0 }),
            c.movement.zoom_speed == 0,
            camera_wf(c),
    {
        Camera {
            translation: PlaneVec { x: 0, y: 0, z: 0 },
            scale: SCALE_MIN,
            movement: Movement { plane_speed: PlaneVec { x: 0, y: 0, z: 0 }, zoom_speed: 0 },
        }
    }

    /// The motion controller for one fixed tick: accumulate the normalized
    /// pressed-key direction into the plane speed, clamp each component,
    /// let the reset key zero the vector, and add the result to the
    /// position. Zoom speed and scale are untouched.
    pub fn camera_move(&mut self, keys: &KeyInput)
        requires
            camera_wf(*old(self)),
        ensures
            *final(self) == move_spec(*old(self), *keys),
            camera_wf(*final(self)),
            keys.reset ==> final(self).movement.plane_speed == (PlaneVec { x: 0, y: 0, z: 0 }),
    {
        let (dx, dy) = direction(keys);
        let sp = self.movement.plane_speed;
        let mut nx: i64 = clamp_i64(sp.x + dx, -CAMERA_MOVE_SPEED, CAMERA_MOVE_SPEED);
        let mut ny: i64 = clamp_i64(sp.y + dy, -CAMERA_MOVE_SPEED, CAMERA_MOVE_SPEED);
        let mut nz: i64 = clamp_i64(sp.z, -CAMERA_MOVE_SPEED, CAMERA_MOVE_SPEED);
        if keys.reset {
            nx = 0;
            ny = 0;
            nz = 0;
        }
        self.movement.plane_speed = PlaneVec { x: nx, y: ny, z: nz };
        self.translation = PlaneVec {
            x: sat_add_i64(self.translation.x, nx),
            y: sat_add_i64(self.translation.y, ny),
            z: sat_add_i64(self.translation.z, nz),
        };
    }

    /// The zoom controller for one fixed tick: accumulate the zoom-key delta
    /// into the zoom speed, clamp it, let the reset key zero it, apply it to
    /// the scale, clamp the scale to its bounds, and zero the zoom speed
    /// when the scale has reached a bound. Position and plane speed are
    /// untouched.
    pub fn camera_zoom(&mut self, keys: &KeyInput)
        requires
            camera_wf(*old(self)),
        ensures
            *final(self) == zoom_spec(*old(self), *keys),
            camera_wf(*final(self)),
            keys.reset ==> final(self).movement.zoom_speed == 0,
            keys.reset ==> final(self).scale == old(self).scale,
            at_zoom_limit(final(self).scale as int) ==> final(self).movement.zoom_speed == 0,
    {
        let mut delta: i64 = 0;
        if keys.zoom_out {
            delta = delta + ZOOM_STEP;
        }
        if keys.zoom_in {
            delta = delta - ZOOM_STEP;
        }
        let mut speed: i64 = clamp_i64(
            self.movement.zoom_speed + delta,
            -CAMERA_ZOOM_SPEED,
            CAMERA_ZOOM_SPEED,
        );
        if keys.reset {
            speed = 0;
        }
        let scale: i64 = clamp_i64(self.scale + speed, SCALE_MIN, SCALE_MAX);
        let at_limit: bool = (scale - SCALE_MIN < ZOOM_LIMIT_EPS && SCALE_MIN - scale
            < ZOOM_LIMIT_EPS) || (scale - SCALE_MAX < ZOOM_LIMIT_EPS && SCALE_MAX - scale
            < ZOOM_LIMIT_EPS);
        if at_limit {
            speed = 0;
        }
        self.movement.zoom_speed = speed;
        self.scale = scale;
    }

    /// One full fixed tick: motion controller, then zoom controller.
    pub fn fixed_tick(&mut self, keys: &KeyInput)
        requires
            camera_wf(*old(self)),
        ensures
            *final(self) == tick_spec(*old(self), *keys),
            camera_wf(*final(self)),
            keys.reset ==> final(self).movement.plane_speed == (PlaneVec { x: 0, y: 0, z: 0 })
                && final(self).movement.zoom_speed == 0,
            at_zoom_limit(final(self).scale as int) ==> final(self).movement.zoom_speed == 0,
    {
        self.camera_move(keys);
        self.camera_zoom(keys);
    }

    /// Run one fixed tick per snapshot, in order.
    pub fn run_ticks(&mut self, inputs: &Vec<KeyInput>)
        requires
            camera_wf(*old(self)),
        ensures
            *final(self) == run_spec(*old(self), inputs@),
            camera_wf(*final(self)),
    {
        let ghost start = *self;
        let mut i: usize = 0;
        while i < inputs.len()
            invariant
                i <= inputs.len(),
                camera_wf(start),
                camera_wf(*self),
                *self == run_spec(start, inputs@.subrange(0, i as int)),
            decreases inputs.len() - i,
        {
            proof {
                lemma_run_spec_snoc(start, inputs@.subrange(0, i as int), inputs@[i as int]);
                assert(inputs@.subrange(0, i as int).push(inputs@[i as int]) =~= inputs@.subrange(
                    0,
                    i as int + 1,
                ));
            }
            self.fixed_tick(&inputs[i]);
            i = i + 1;
        }
        proof {
            assert(inputs@.subrange(0, inputs@.len() as int) =~= inputs@);
        }
    }
}

/// The motion and zoom controllers may run in either order within a tick:
/// they read and write disjoint fields of the camera, so the combined result
/// is the same both ways.
pub proof fn lemma_controllers_commute(c: Camera, k: KeyInput)
    ensures
        zoom_spec(move_spec(c, k), k) == move_spec(zoom_spec(c, k), k),
{
}

/// A single tick keeps the camera's invariant.
pub proof fn lemma_tick_preserves_wf(c: Camera, k: KeyInput)
    requires
        camera_wf(c),
    ensures
        camera_wf(tick_spec(c, k)),
{
}

/// Appending one snapshot to a run is one more tick at its end.
pub proof fn lemma_run_spec_snoc(c: Camera, ks: Seq<KeyInput>, k: KeyInput)
    ensures
        run_spec(c, ks.push(k)) == tick_spec(run_spec(c, ks), k),
    decreases ks.len(),
{
    if ks.len() == 0 {
        assert(ks.push(k).subrange(1, ks.push(k).len() as int) =~= Seq::<KeyInput>::empty());
        assert(ks.push(k)[0] == k);
        assert(run_spec(tick_spec(c, k), Seq::<KeyInput>::empty()) == tick_spec(c, k));
        assert(run_spec(c, ks.push(k)) == run_spec(
            tick_spec(c, k),
            Seq::<KeyInput>::empty(),
        ));
        assert(run_spec(c, ks) == c);
    } else {
        assert(ks.push(k)[0] == ks[0]);
        assert(ks.push(k).subrange(1, ks.push(k).len() as int) =~= ks.subrange(
            1,
            ks.len() as int,
        ).push(k));
        lemma_run_spec_snoc(tick_spec(c, ks[0]), ks.subrange(1, ks.len() as int), k);
        assert(run_spec(c, ks.push(k)) == run_spec(
            tick_spec(c, ks[0]),
            ks.subrange(1, ks.len() as int).push(k),
        ));
    }
}

/// Over every sequence of pressed-key snapshots, every component of the
/// plane speed stays within its clamp bound and the scale stays within its
/// bounds: the camera's invariant holds after any number of ticks from any
/// well-formed start.
pub proof fn lemma_bounds_over_ticks(c: Camera, ks: Seq<KeyInput>)
    requires
        camera_wf(c),
    ensures
        camera_wf(run_spec(c, ks)),
        -(CAMERA_MOVE_SPEED as int) <= run_spec(c, ks).movement.plane_speed.x
            <= CAMERA_MOVE_SPEED as int,
        -(CAMERA_MOVE_SPEED as int) <= run_spec(c, ks).movement.plane_speed.y
            <= CAMERA_MOVE_SPEED as int,
        -(CAMERA_MOVE_SPEED as int) <= run_spec(c, ks).movement.plane_speed.z
            <= CAMERA_MOVE_SPEED as int,
        SCALE_MIN as int <= run_spec(c, ks).scale <= SCALE_MAX as int,
    decreases ks.len(),
{
    if ks.len() > 0 {
        lemma_tick_preserves_wf(c, ks[0]);
        lemma_bounds_over_ticks(tick_spec(c, ks[0]), ks.subrange(1, ks.len() as int));
    }
}

} // verus!
