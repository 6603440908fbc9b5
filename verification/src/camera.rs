//! The orbiting camera of the later pages.
//!
//! The camera circles a fixed focus point: a yaw angle around the vertical
//! axis, a pitch angle above the horizon, and a distance from the focus.
//! Angles are kept in milliradians and the distance in thousandths of a
//! scene unit, so every update is exact integer arithmetic. The front end
//! divides by 1000 when it builds the floating-point view matrix; since
//! sine and cosine are periodic, reducing the yaw modulo a full turn leaves
//! the rendered image unchanged.

use vstd::prelude::*;
use vstd::arithmetic::div_mod::{
    lemma_fundamental_div_mod, lemma_mod_division_less_than_divisor, lemma_mod_multiples_vanish,
    lemma_small_mod,
};

verus! {

/// One full turn in milliradians: 2 * pi, rounded to the nearest thousandth.
pub const FULL_TURN_MRAD: i64 = 6283;

/// How far one unit of pointer drag swings the camera: 0.02 rad per pixel.
pub const ORBIT_STEP_MRAD: i64 = 20;

/// Lowest pitch the camera may reach, a little past a quarter turn below
/// the horizon: -pi / 1.9 in milliradians.
pub const PITCH_MIN_MRAD: i64 = -1653;

/// Highest pitch the camera may reach, a little short of a quarter turn
/// above the horizon: pi / 2.1 in milliradians.
pub const PITCH_MAX_MRAD: i64 = 1496;

/// Yaw a fresh camera starts at: 45 degrees.
pub const INITIAL_YAW_MRAD: i64 = 785;

/// Pitch a fresh camera starts at: 80 degrees.
pub const INITIAL_PITCH_MRAD: i64 = 1396;

/// Closest the camera may zoom in: 0.1 scene units.
pub const RADIUS_MIN_MILLI: i64 = 100;

/// Farthest the camera may zoom out: 50 scene units.
pub const RADIUS_MAX_MILLI: i64 = 50000;

/// Distance a fresh camera starts at: 15 scene units.
pub const INITIAL_RADIUS_MILLI: i64 = 15000;

/// Largest pointer drag a single orbit step accepts. A drag delta is the
/// difference of two i32 client coordinates, so its magnitude is below 2^32.
pub const MAX_DRAG_DELTA: i64 = 0x1_0000_0000;

/// `v` forced into the closed interval `[lo, hi]`.
pub open spec fn clamped(v: int, lo: int, hi: int) -> int {
    if v < lo {
        lo
    } else if v > hi {
        hi
    } else {
        v
    }
}

/// An orbiting camera: yaw and pitch in milliradians, distance from the
/// focus in thousandths of a scene unit.
pub struct Camera {
    pub yaw_mrad: i64,
    pub pitch_mrad: i64,
    pub radius_milli: i64,
}

impl Camera {
    /// The ranges every reachable camera stays inside: yaw reduced to one
    /// turn, pitch strictly between straight down and straight up, distance
    /// between the zoom stops.
    pub open spec fn wf(&self) -> bool {
        &&& 0 <= self.yaw_mrad < FULL_TURN_MRAD
        &&& PITCH_MIN_MRAD <= self.pitch_mrad <= PITCH_MAX_MRAD
        &&& RADIUS_MIN_MILLI <= self.radius_milli <= RADIUS_MAX_MILLI
    }

    pub fn new() -> (c: Camera)
        ensures
            c.wf(),
            c.yaw_mrad == INITIAL_YAW_MRAD,
            c.pitch_mrad == INITIAL_PITCH_MRAD,
            c.radius_milli == INITIAL_RADIUS_MILLI,
    {
        Camera {
            yaw_mrad: INITIAL_YAW_MRAD,
            pitch_mrad: INITIAL_PITCH_MRAD,
            radius_milli: INITIAL_RADIUS_MILLI,
        }
    }

    /// Swing the camera around the vertical axis. The scaled delta is added
    /// to the yaw, which is then reduced to one full turn.
    pub fn orbit_left_right(&mut self, delta: i64)
        requires
            old(self).wf(),
            -MAX_DRAG_DELTA <= delta <= MAX_DRAG_DELTA,
        ensures
            final(self).wf(),
            final(self).yaw_mrad == (old(self).yaw_mrad + delta * ORBIT_STEP_MRAD) % (
            FULL_TURN_MRAD as int),
            final(self).pitch_mrad == old(self).pitch_mrad,
            final(self).radius_milli == old(self).radius_milli,
    {
        let v: i64 = self.yaw_mrad + delta * ORBIT_STEP_MRAD;
        self.yaw_mrad = rem_full_turn(v);
    }

    /// Tilt the camera above or below the horizon. The scaled delta is added
    /// to the pitch, which is then held inside its stops so the view cannot
    /// flip over the poles.
    pub fn orbit_up_down(&mut self, delta: i64)
        requires
            old(self).wf(),
            -MAX_DRAG_DELTA <= delta <= MAX_DRAG_DELTA,
        ensures
            final(self).wf(),
            final(self).pitch_mrad == clamped(
                old(self).pitch_mrad + delta * ORBIT_STEP_MRAD,
                PITCH_MIN_MRAD as int,
                PITCH_MAX_MRAD as int,
            ),
            final(self).yaw_mrad == old(self).yaw_mrad,
            final(self).radius_milli == old(self).radius_milli,
    {
        let v: i64 = self.pitch_mrad + delta * ORBIT_STEP_MRAD;
        self.pitch_mrad = if v < PITCH_MIN_MRAD {
            PITCH_MIN_MRAD
        } else if v > PITCH_MAX_MRAD {
            PITCH_MAX_MRAD
        } else {
            v
        };
    }

    /// Move the camera toward or away from the focus, stopping at the zoom
    /// limits. Any delta is accepted; a sum that would not even fit an i64
    /// lies far beyond a stop and is cut off there like any other.
    pub fn zoom(&mut self, delta_milli: i64)
        requires
            old(self).wf(),
        ensures
            final(self).wf(),
            final(self).radius_milli == clamped(
                old(self).radius_milli + delta_milli,
                RADIUS_MIN_MILLI as int,
                RADIUS_MAX_MILLI as int,
            ),
            final(self).yaw_mrad == old(self).yaw_mrad,
            final(self).pitch_mrad == old(self).pitch_mrad,
    {
        self.radius_milli = match self.radius_milli.checked_add(delta_milli) {
            Some(v) => {
                if v < RADIUS_MIN_MILLI {
                    RADIUS_MIN_MILLI
                } else if v > RADIUS_MAX_MILLI {
                    RADIUS_MAX_MILLI
                } else {
                    v
                }
            },
            None => {
                if delta_milli > 0 {
                    RADIUS_MAX_MILLI
                } else {
                    RADIUS_MIN_MILLI
                }
            },
        };
    }
}

/// The Euclidean remainder of `v` by a full turn, the representative in
/// `[0, FULL_TURN_MRAD)`.
fn rem_full_turn(v: i64) -> (r: i64)
    requires
        -0x4000_0000_0000_0000 <= v <= 0x4000_0000_0000_0000,
    ensures
        r == v as int % (FULL_TURN_MRAD as int),
        0 <= r < FULL_TURN_MRAD,
{
    proof {
        lemma_mod_division_less_than_divisor(v as int, FULL_TURN_MRAD as int);
    }
    if v >= 0 {
        let r = ((v as u64) % (FULL_TURN_MRAD as u64)) as i64;
        r
    } else {
        let w: u64 = (-v) as u64;
        let m: u64 = w % (FULL_TURN_MRAD as u64);
        proof {
            let t = FULL_TURN_MRAD as int;
            let q = w as int / t;
            lemma_fundamental_div_mod(w as int, t);
            if m == 0 {
                assert(v as int == t * (-q) + 0) by {
                    assert(w as int == t * q);
                }
                lemma_mod_multiples_vanish(-q, 0, t);
                lemma_small_mod(0, t as nat);
            } else {
                assert(v as int == t * (-(q + 1)) + (t - m)) by {
                    assert(w as int == t * q + m);
                }
                lemma_mod_multiples_vanish(-(q + 1), t - m, t);
                lemma_small_mod((t - m) as nat, t as nat);
            }
        }
        if m == 0 {
            0
        } else {
            FULL_TURN_MRAD - (m as i64)
        }
    }
}

} // verus!
