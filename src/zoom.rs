//! Orbit distance: the zoom range, proportional zooming, and the aim-zoom
//! override that narrows the distance while an aim control is held and
//! restores it afterwards.
use vstd::prelude::*;
use crate::fixed::{ONE, LIMIT, clamp, fixed_mul, clamp_wide, div_toward_zero, lemma_trunc_div_bound, lemma_mul_bound};
use vstd::arithmetic::div_mod::lemma_div_nonincreasing;

verus! {

/// The zoom bounds of the camera and its current distance to the target.
#[derive(Clone, Copy, Debug)]
pub struct Zoom {
    /// Closest allowed distance.
    pub min: i64,
    /// Farthest allowed distance.
    pub max: i64,
    /// Current distance between camera and target.
    pub radius: i64,
    /// The distance to restore once aiming ends; `Some` exactly while an
    /// aim-zoom override is active or unwinding.
    pub radius_copy: Option<i64>,
}

/// The distance that aiming zooms in to.
pub open spec fn aim_target(min: int, aim_zoom: int) -> int {
    fixed_mul(min, aim_zoom)
}

/// How far one frame of aiming moves the distance: the saved distance over
/// the aim factor, times the aim speed and the frame time.
pub open spec fn aim_step_len(saved: int, aim_zoom: int, aim_speed: int, dt: int) -> int {
    (saved * aim_speed * dt) / (aim_zoom * ONE)
}

/// Are the aim tunables ones that the library accepts? The aim factor
/// narrows the distance, so it lies in `(0, 1]`.
pub open spec fn aim_params_ok(aim_zoom: int, aim_speed: int, dt: int) -> bool {
    &&& 0 < aim_zoom <= ONE
    &&& 0 <= aim_speed <= LIMIT
    &&& 0 <= dt <= LIMIT
}

/// One frame of the aim state machine.
pub open spec fn aim_next(z: Zoom, pressed: bool, aim_zoom: int, aim_speed: int, dt: int) -> Zoom {
    if pressed {
        let saved: int = match z.radius_copy {
            Some(s) => s as int,
            None => z.radius as int,
        };
        let desired = aim_target(z.min as int, aim_zoom);
        let f = aim_step_len(saved, aim_zoom, aim_speed, dt);
        let r = if z.radius <= desired || z.radius - f <= desired {
            desired
        } else {
            z.radius - f
        };
        Zoom { radius: r as i64, radius_copy: Some(saved as i64), ..z }
    } else {
        match z.radius_copy {
            None => z,
            Some(s) => {
                let f = aim_step_len(s as int, aim_zoom, aim_speed, dt);
                if z.radius >= s || z.radius + f >= s {
                    Zoom { radius: s, radius_copy: None, ..z }
                } else {
                    Zoom { radius: (z.radius + f) as i64, ..z }
                }
            },
        }
    }
}

/// The zoom state after a run of aim frames, each a pressed flag and a
/// frame time.
pub open spec fn aim_run(z: Zoom, frames: Seq<(bool, int)>, aim_zoom: int, aim_speed: int) -> Zoom
    decreases frames.len(),
{
    if frames.len() == 0 {
        z
    } else {
        aim_run(
            aim_next(z, frames[0].0, aim_zoom, aim_speed, frames[0].1),
            frames.drop_first(),
            aim_zoom,
            aim_speed,
        )
    }
}

/// The distance after a proportional zoom by `delta`, a fraction of the
/// current distance.
pub open spec fn zoomed_radius(z: Zoom, delta: int) -> int {
    clamp(z.radius - fixed_mul(delta, z.radius as int), z.min as int, z.max as int)
}

impl Zoom {
    /// The zoom invariant: ordered bounds, a distance between zero and the
    /// upper bound, and at least the lower bound unless aiming owns it.
    pub open spec fn wf(&self) -> bool {
        &&& 0 <= self.min <= self.max <= LIMIT
        &&& 0 <= self.radius <= self.max
        &&& match self.radius_copy {
            None => self.min <= self.radius,
            Some(s) => self.min <= s <= self.max,
        }
    }

    /// Zoom bounds `min` and `max`, starting halfway between them.
    pub fn new(min: i64, max: i64) -> (r: Self)
        requires
            0 <= min <= max <= LIMIT,
        ensures
            r.min == min,
            r.max == max,
            r.radius == (min + max) / 2,
            r.radius_copy is None,
            r.wf(),
    {
        Zoom { min, max, radius: (min + max) / 2, radius_copy: None }
    }

    /// Current distance between camera and target.
    pub fn radius(&self) -> (r: i64)
        ensures
            r == self.radius,
    {
        self.radius
    }

    /// The distance saved at the start of aiming, if aiming is in progress.
    pub fn radius_copy(&self) -> (r: Option<i64>)
        ensures
            r == self.radius_copy,
    {
        self.radius_copy
    }

    /// Zooms by `delta`, a fraction of the current distance (positive moves
    /// closer), then clamps the distance into the bounds.
    pub fn apply_zoom(&mut self, delta: i64)
        requires
            old(self).wf(),
            -LIMIT * ONE <= delta <= LIMIT * ONE,
        ensures
            final(self).radius == zoomed_radius(*old(self), delta as int),
            final(self).min <= final(self).radius <= final(self).max,
            final(self).min == old(self).min,
            final(self).max == old(self).max,
            final(self).radius_copy == old(self).radius_copy,
            final(self).wf(),
    {
        proof {
            lemma_mul_bound(delta as int, self.radius as int, LIMIT * ONE, LIMIT as int);
        }
        let prod: i128 = delta as i128 * self.radius as i128;
        let change = div_toward_zero(prod, ONE as i128);
        self.radius = clamp_wide(self.radius as i128 - change, self.min, self.max);
    }

    /// One frame of aiming. While `pressed`, the distance moves toward the
    /// lower bound times `aim_zoom`, after saving the distance to restore;
    /// once released, it moves back to the saved distance and forgets it on
    /// arrival. Neither direction overshoots.
    pub fn aim(&mut self, pressed: bool, aim_zoom: i64, aim_speed: i64, dt: i64)
        requires
            old(self).wf(),
            aim_params_ok(aim_zoom as int, aim_speed as int, dt as int),
        ensures
            *final(self) == aim_next(*old(self), pressed, aim_zoom as int, aim_speed as int, dt as int),
            final(self).wf(),
            pressed && old(self).radius_copy is None ==> final(self).radius_copy == Some(old(self).radius),
            pressed && old(self).radius_copy is Some ==> final(self).radius_copy == old(self).radius_copy,
            !pressed && old(self).radius_copy is None ==> *final(self) == *old(self),
            old(self).radius_copy matches Some(s) ==> (final(self).radius_copy is None ==> final(self).radius == s),
    {
        proof {
            assert(0 <= aim_target(self.min as int, aim_zoom as int) <= self.min) by {
                lemma_trunc_div_bound(self.min * aim_zoom, ONE as int);
                assert(0 <= self.min * aim_zoom <= self.min * ONE) by (nonlinear_arith)
                    requires
                        0 <= self.min,
                        0 < aim_zoom <= ONE,
                ;
                assert((self.min * aim_zoom) / (ONE as int) <= self.min) by (nonlinear_arith)
                    requires
                        0 <= self.min * aim_zoom <= self.min * ONE,
                ;
            }
        }
        if pressed {
            let saved: i64 = match self.radius_copy {
                Some(s) => s,
                None => self.radius,
            };
            self.radius_copy = Some(saved);
            let desired: i64 = (self.min as i128 * aim_zoom as i128 / ONE as i128) as i64;
            let f = step_len(saved, aim_zoom, aim_speed, dt);
            if self.radius as i128 <= desired as i128 || self.radius as i128 - f <= desired as i128 {
                self.radius = desired;
            } else {
                self.radius = (self.radius as i128 - f) as i64;
            }
        } else {
            match self.radius_copy {
                None => {},
                Some(s) => {
                    let f = step_len(s, aim_zoom, aim_speed, dt);
                    if self.radius >= s || self.radius as i128 + f >= s as i128 {
                        self.radius = s;
                        self.radius_copy = None;
                    } else {
                        self.radius = (self.radius as i128 + f) as i64;
                    }
                },
            }
        }
    }
}

/// `aim_step_len` in exact wide arithmetic.
fn step_len(saved: i64, aim_zoom: i64, aim_speed: i64, dt: i64) -> (r: i128)
    requires
        0 <= saved <= LIMIT,
        aim_params_ok(aim_zoom as int, aim_speed as int, dt as int),
    ensures
        r == aim_step_len(saved as int, aim_zoom as int, aim_speed as int, dt as int),
        0 <= r <= LIMIT * LIMIT * LIMIT,
{
    proof {
        lemma_mul_bound(saved as int, aim_speed as int, LIMIT as int, LIMIT as int);
        assert(saved * aim_speed >= 0) by (nonlinear_arith)
            requires
                saved >= 0,
                aim_speed >= 0,
        ;
    }
    let num: i128 = saved as i128 * aim_speed as i128;
    proof {
        assert(0 <= num * dt <= LIMIT * LIMIT * LIMIT) by (nonlinear_arith)
            requires
                0 <= num <= LIMIT * LIMIT,
                0 <= dt <= LIMIT,
        ;
        assert(0 < aim_zoom * ONE <= ONE * ONE) by (nonlinear_arith)
            requires
                0 < aim_zoom <= ONE,
        ;
        assert(num * dt / (aim_zoom * ONE) >= 0) by (nonlinear_arith)
            requires
                num * dt >= 0,
                aim_zoom * ONE > 0,
        ;
        lemma_div_nonincreasing(num * dt, aim_zoom * ONE);
    }
    let num3: i128 = num * dt as i128;
    let den: i128 = aim_zoom as i128 * ONE as i128;
    num3 / den
}

/// Zooming keeps the distance within its bounds: for every distance and
/// every zoom-delta, the zoomed distance lies in `[min, max]`.
pub proof fn lemma_zoom_within_bounds(z: Zoom, delta: int)
    requires
        z.min <= z.max,
    ensures
        z.min <= zoomed_radius(z, delta) <= z.max,
{
}

/// Aiming always gives back the distance it took: from a state without a
/// saved distance, any run of aim frames (any hold time, any frame times)
/// that ends without a saved distance ends at the starting distance.
pub proof fn lemma_aim_round_trip(z: Zoom, frames: Seq<(bool, int)>, aim_zoom: int, aim_speed: int)
    requires
        z.radius_copy is None,
    ensures
        aim_run(z, frames, aim_zoom, aim_speed).radius_copy is None
            ==> aim_run(z, frames, aim_zoom, aim_speed).radius == z.radius,
{
    lemma_aim_run_keeps_saved(z, frames, aim_zoom, aim_speed, z.radius as int);
}

/// The state that aiming keeps while it runs: the saved distance, when
/// there is one, and otherwise the distance itself, equals `r0`.
pub open spec fn aim_keeps(z: Zoom, r0: int) -> bool {
    match z.radius_copy {
        None => z.radius == r0,
        Some(s) => s == r0,
    }
}

proof fn lemma_aim_run_keeps_saved(z: Zoom, frames: Seq<(bool, int)>, aim_zoom: int, aim_speed: int, r0: int)
    requires
        aim_keeps(z, r0),
    ensures
        aim_keeps(aim_run(z, frames, aim_zoom, aim_speed), r0),
    decreases frames.len(),
{
    if frames.len() > 0 {
        let next = aim_next(z, frames[0].0, aim_zoom, aim_speed, frames[0].1);
        assert(aim_keeps(next, r0));
        lemma_aim_run_keeps_saved(next, frames.drop_first(), aim_zoom, aim_speed, r0);
    }
}

/// While aiming is held or unwinding the saved distance stays put: from a
/// state without one, every frame of a run leaves the saved distance either
/// absent (with the distance back at its start) or equal to that start.
pub proof fn lemma_aim_saved_is_start(z: Zoom, frames: Seq<(bool, int)>, aim_zoom: int, aim_speed: int, k: int)
    requires
        z.radius_copy is None,
        0 <= k <= frames.len(),
    ensures
        aim_run(z, frames.take(k), aim_zoom, aim_speed).radius_copy matches Some(s) ==> s == z.radius,
        aim_run(z, frames.take(k), aim_zoom, aim_speed).radius_copy is None
            ==> aim_run(z, frames.take(k), aim_zoom, aim_speed).radius == z.radius,
{
    lemma_aim_run_keeps_saved(z, frames.take(k), aim_zoom, aim_speed, z.radius as int);
}

} // verus!
