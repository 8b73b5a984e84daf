//! The shoulder offset and its toggle, which slides the lateral offset
//! between its two extremes.
use vstd::prelude::*;
use crate::fixed::{ONE, LIMIT, within_limit, clamp, fixed_mul, clamp_wide, div_toward_zero, lemma_mul_bound};

verus! {

/// The camera offset relative to its target: `offset.0` to the side,
/// `offset.1` upward. `offset_copy` keeps the configured offset, whose
/// side component gives the extremes of the toggle.
#[derive(Clone, Copy, Debug)]
pub struct Offset {
    pub offset: (i64, i64),
    pub offset_copy: (i64, i64),
    /// Direction of travel of the toggle: toward the negative extreme when
    /// set, toward the positive one otherwise.
    pub is_transitioning: bool,
}

/// The magnitude of the side offset's extremes.
pub open spec fn extreme(o: Offset) -> int {
    if o.offset_copy.0 >= 0 {
        o.offset_copy.0 as int
    } else {
        -o.offset_copy.0
    }
}

/// The side offset one frame of the toggle moves toward: the negative
/// extreme while transitioning, the positive one otherwise.
pub open spec fn endpoint(o: Offset) -> int {
    if o.is_transitioning {
        -extreme(o)
    } else {
        extreme(o)
    }
}

/// One frame of the offset toggle: a press flips the direction, then the
/// side offset moves by `speed * dt` in that direction, kept within the
/// extremes.
pub open spec fn toggle_next(o: Offset, pressed: bool, speed: int, dt: int) -> Offset {
    let t = if pressed {
        !o.is_transitioning
    } else {
        o.is_transitioning
    };
    let v = if t {
        -speed
    } else {
        speed
    };
    let x = clamp(o.offset.0 + fixed_mul(v, dt), -extreme(o), extreme(o));
    Offset { offset: (x as i64, o.offset.1), is_transitioning: t, ..o }
}

/// The offset after `n` frames of the toggle without a press.
pub open spec fn toggle_run(o: Offset, n: nat, speed: int, dt: int) -> Offset
    decreases n,
{
    if n == 0 {
        o
    } else {
        toggle_run(toggle_next(o, false, speed, dt), (n - 1) as nat, speed, dt)
    }
}

/// The offset after a run of toggle frames, each a press flag and a frame
/// time.
pub open spec fn toggle_frames(o: Offset, frames: Seq<(bool, int)>, speed: int) -> Offset
    decreases frames.len(),
{
    if frames.len() == 0 {
        o
    } else {
        toggle_frames(toggle_next(o, frames[0].0, speed, frames[0].1), frames.drop_first(), speed)
    }
}

impl Offset {
    /// The offset invariant: values within the library's limits and a side
    /// offset between the extremes.
    pub open spec fn wf(&self) -> bool {
        &&& within_limit(self.offset.0 as int)
        &&& within_limit(self.offset.1 as int)
        &&& within_limit(self.offset_copy.0 as int)
        &&& within_limit(self.offset_copy.1 as int)
        &&& -extreme(*self) <= self.offset.0 <= extreme(*self)
    }

    /// An offset of `x` to the side and `y` upward.
    pub fn new(x: i64, y: i64) -> (r: Self)
        requires
            within_limit(x as int),
            within_limit(y as int),
        ensures
            r.offset == (x, y),
            r.offset_copy == (x, y),
            !r.is_transitioning,
            r.wf(),
    {
        Offset { offset: (x, y), offset_copy: (x, y), is_transitioning: false }
    }

    /// One frame of the offset toggle with speed `speed` and frame time `dt`.
    pub fn toggle_x_offset(&mut self, pressed: bool, speed: i64, dt: i64)
        requires
            old(self).wf(),
            0 <= speed <= LIMIT,
            0 <= dt <= LIMIT,
        ensures
            *final(self) == toggle_next(*old(self), pressed, speed as int, dt as int),
            final(self).wf(),
            -extreme(*final(self)) <= final(self).offset.0 <= extreme(*final(self)),
    {
        if pressed {
            self.is_transitioning = !self.is_transitioning;
        }
        let v: i64 = if self.is_transitioning {
            -speed
        } else {
            speed
        };
        proof {
            lemma_mul_bound(v as int, dt as int, LIMIT as int, LIMIT as int);
        }
        let step = div_toward_zero(v as i128 * dt as i128, ONE as i128);
        let e: i64 = if self.offset_copy.0 >= 0 {
            self.offset_copy.0
        } else {
            -self.offset_copy.0
        };
        let x = clamp_wide(self.offset.0 as i128 + step, -e, e);
        self.offset = (x, self.offset.1);
    }
}

/// The step toward the negative extreme is the step toward the positive
/// one, negated.
proof fn lemma_step_symmetric(speed: int, dt: int)
    ensures
        fixed_mul(-speed, dt) == -fixed_mul(speed, dt),
{
    assert((-speed) * dt == -(speed * dt)) by (nonlinear_arith);
}

/// Without a press, the side offset advances by one step per frame toward
/// the current endpoint and stops there.
proof fn lemma_toggle_run_position(o: Offset, n: nat, speed: int, dt: int)
    requires
        -extreme(o) <= o.offset.0 <= extreme(o),
        fixed_mul(speed, dt) >= 0,
        within_limit(extreme(o) + n * fixed_mul(speed, dt)),
    ensures
        toggle_run(o, n, speed, dt).offset_copy == o.offset_copy,
        toggle_run(o, n, speed, dt).is_transitioning == o.is_transitioning,
        !o.is_transitioning ==> toggle_run(o, n, speed, dt).offset.0 == clamp(
            o.offset.0 + n * fixed_mul(speed, dt),
            -extreme(o),
            extreme(o),
        ),
        o.is_transitioning ==> toggle_run(o, n, speed, dt).offset.0 == clamp(
            o.offset.0 - n * fixed_mul(speed, dt),
            -extreme(o),
            extreme(o),
        ),
    decreases n,
{
    let s = fixed_mul(speed, dt);
    if n > 0 {
        lemma_step_symmetric(speed, dt);
        let next = toggle_next(o, false, speed, dt);
        assert(extreme(next) == extreme(o));
        assert(within_limit(extreme(o) + (n - 1) * s)) by (nonlinear_arith)
            requires
                within_limit(extreme(o) + n * s),
                s >= 0,
                n > 0,
                extreme(o) >= 0,
        ;
        assert(n * s == s + (n - 1) * s) by (nonlinear_arith);
        assert(0 <= (n - 1) * s) by (nonlinear_arith)
            requires
                s >= 0,
                n > 0,
        ;
        lemma_toggle_run_position(next, (n - 1) as nat, speed, dt);
        let e = extreme(o);
        assert(toggle_run(o, n, speed, dt) == toggle_run(next, (n - 1) as nat, speed, dt));
        if !o.is_transitioning {
            let x1 = clamp(o.offset.0 + s, -e, e);
            assert(next.offset.0 == x1);
            if o.offset.0 + s <= e {
                assert(x1 + (n - 1) * s == o.offset.0 + n * s);
            } else {
                assert(x1 == e);
                assert(clamp(x1 + (n - 1) * s, -e, e) == e);
                assert(clamp(o.offset.0 + n * s, -e, e) == e);
            }
        } else {
            let x1 = clamp(o.offset.0 - s, -e, e);
            assert(next.offset.0 == x1);
            if o.offset.0 - s >= -e {
                assert(x1 - (n - 1) * s == o.offset.0 - n * s);
            } else {
                assert(x1 == -e);
                assert(clamp(x1 - (n - 1) * s, -e, e) == -e);
                assert(clamp(o.offset.0 - n * s, -e, e) == -e);
            }
        }
    } else {
        assert(n * s == 0) by (nonlinear_arith)
            requires
                n == 0,
        ;
    }
}

/// The side offset never leaves its extremes: whatever the presses and the
/// frame times, every run of toggle frames from a well-formed offset ends
/// well-formed, with the side offset within `[-extreme, extreme]`. Every
/// frame of a run ends such a run, its prefix.
pub proof fn lemma_toggle_bounded(o: Offset, frames: Seq<(bool, int)>, speed: int)
    requires
        o.wf(),
        0 <= speed <= LIMIT,
        forall|i: int| 0 <= i < frames.len() ==> 0 <= #[trigger] frames[i].1 <= LIMIT,
    ensures
        toggle_frames(o, frames, speed).wf(),
        extreme(toggle_frames(o, frames, speed)) == extreme(o),
        -extreme(o) <= toggle_frames(o, frames, speed).offset.0 <= extreme(o),
    decreases frames.len(),
{
    if frames.len() > 0 {
        let next = toggle_next(o, frames[0].0, speed, frames[0].1);
        let rest = frames.drop_first();
        assert(forall|i: int| 0 <= i < rest.len() ==> rest[i] == frames[i + 1]);
        assert(0 <= frames[0].1 <= LIMIT);
        lemma_mul_bound(speed, frames[0].1, LIMIT as int, LIMIT as int);
        assert(next.wf());
        lemma_toggle_bounded(next, rest, speed);
    }
}

/// Held for enough frames at a fixed speed, the toggle reaches its
/// endpoint: once `n` steps cover the distance between the extremes, the
/// side offset equals the extreme in the direction of travel.
pub proof fn lemma_toggle_converges(o: Offset, n: nat, speed: int, dt: int)
    requires
        o.wf(),
        fixed_mul(speed, dt) > 0,
        n * fixed_mul(speed, dt) >= 2 * extreme(o),
        within_limit(extreme(o) + n * fixed_mul(speed, dt)),
    ensures
        toggle_run(o, n, speed, dt).offset.0 == endpoint(o),
{
    lemma_toggle_run_position(o, n, speed, dt);
}

} // verus!
