//! The camera's orientation and the orbit update that turns it.
//!
//! The camera never rolls, so its orientation is a yaw around the world's
//! vertical axis followed by a pitch around the camera's own right axis.
//! Its up vector then has vertical component `cos(pitch)`, which is
//! positive exactly while the pitch lies strictly between the poles.
use vstd::prelude::*;
use crate::fixed::{FULL_TURN, QUARTER_TURN, turn_angle, signed_angle, wrap_turn, wrap_signed};

verus! {

/// Yaw and pitch of the camera, in millionths of a degree.
#[derive(Clone, Copy, Debug, PartialEq, Eq, Structural)]
pub struct Orientation {
    /// Rotation around the world's vertical axis, in `[0, FULL_TURN)`.
    pub yaw: i64,
    /// Rotation around the camera's right axis; positive looks upward.
    pub pitch: i64,
}

/// Does the camera's up vector point above the horizon, that is, does it
/// have a positive vertical component?
pub open spec fn up_is_above_horizon(o: Orientation) -> bool {
    -QUARTER_TURN < o.pitch < QUARTER_TURN
}

/// One orbit step: turn by `dx` around the world's vertical axis (a drag
/// to the right turns the camera right), then pitch by `dy` unless that
/// would carry the up vector to or past the horizon, in which case the
/// pitch stays as it was for this frame.
pub open spec fn orbit_next(o: Orientation, dx: int, dy: int) -> Orientation {
    let yaw = turn_angle(o.yaw - dx);
    let pitch = signed_angle(o.pitch - dy);
    Orientation {
        yaw: yaw as i64,
        pitch: if -QUARTER_TURN < pitch < QUARTER_TURN {
            pitch as i64
        } else {
            o.pitch
        },
    }
}

/// The orientation after a run of orbit steps.
pub open spec fn orbit_run(o: Orientation, deltas: Seq<(int, int)>) -> Orientation
    decreases deltas.len(),
{
    if deltas.len() == 0 {
        o
    } else {
        orbit_run(orbit_next(o, deltas[0].0, deltas[0].1), deltas.drop_first())
    }
}

impl Orientation {
    /// A reachable orientation: a reduced yaw and an up vector above the
    /// horizon.
    pub open spec fn wf(&self) -> bool {
        &&& 0 <= self.yaw < FULL_TURN
        &&& up_is_above_horizon(*self)
    }

    /// Looking straight along the horizon, facing the default direction.
    pub fn level() -> (r: Self)
        ensures
            r.yaw == 0,
            r.pitch == 0,
            r.wf(),
    {
        Orientation { yaw: 0, pitch: 0 }
    }

    /// Turns the camera by the look-delta `(dx, dy)`.
    pub fn orbit(&mut self, dx: i64, dy: i64)
        requires
            old(self).wf(),
        ensures
            *final(self) == orbit_next(*old(self), dx as int, dy as int),
            final(self).wf(),
    {
        let yaw = wrap_turn(self.yaw as i128 - dx as i128);
        let pitch = wrap_signed(self.pitch as i128 - dy as i128);
        self.yaw = yaw;
        if -QUARTER_TURN < pitch && pitch < QUARTER_TURN {
            self.pitch = pitch;
        }
    }
}

/// However many pitch steps are applied, in whatever direction, an
/// orientation whose up vector is above the horizon keeps it there after
/// every step.
pub proof fn lemma_pole_never_crossed(o: Orientation, deltas: Seq<(int, int)>)
    requires
        o.wf(),
    ensures
        orbit_run(o, deltas).wf(),
        up_is_above_horizon(orbit_run(o, deltas)),
    decreases deltas.len(),
{
    if deltas.len() > 0 {
        let next = orbit_next(o, deltas[0].0, deltas[0].1);
        assert(next.wf()) by {
            vstd::arithmetic::div_mod::lemma_mod_bound(o.yaw - deltas[0].0, FULL_TURN as int);
        }
        lemma_pole_never_crossed(next, deltas.drop_first());
    }
}

} // verus!
