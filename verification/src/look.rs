//! The look controller: mouse deltas to a clamped pitch/yaw orientation.
//!
//! Each frame that carries an accumulated mouse delta `(dx, dy)` updates the
//! controlled view's orientation: `yaw -= dx * sensitivity` and
//! `pitch = clamp(pitch - dy * sensitivity, -limit, +limit)`.  Yaw is
//! unbounded (continuous rotation); pitch never leaves the configured
//! limit.  The orientation the view entity receives is
//! `Rotation(Y, yaw) * Rotation(X, pitch)`; building that rotation from the
//! angles is the rendering side's affair and happens outside this crate.
//!
//! Angles are degrees in fixed-point steps of [`crate::math::SCALE`].

use vstd::prelude::*;

verus! {

use crate::math::{
    clamp_fixed,
    clamped,
    div_towards_zero,
    fixed_mul,
    lemma_fixed_mul_magnitude,
    MAX_FIXED,
    SCALE,
};

/// Yaw magnitude the controller accepts without risking 64-bit overflow:
/// the step added by one sample is below `10^18`, so staying within
/// `8 * 10^18` keeps the update exact.
pub const YAW_RANGE: i64 = 8_000_000_000_000_000_000;

/// Mouse configuration, set once at startup and read-only afterwards.
/// `sensitivity` is in degrees per mouse count, `pitch_limit` in degrees,
/// both in fixed-point steps.
#[derive(Clone, Copy, PartialEq, Eq, Structural, Debug)]
pub struct MouseSettings {
    pub sensitivity: i64,
    pub pitch_limit: i64,
}

impl MouseSettings {
    /// Magnitudes small enough for exact fixed-point arithmetic, and a
    /// nonnegative pitch limit.
    pub open spec fn wf(self) -> bool {
        &&& -MAX_FIXED <= self.sensitivity <= MAX_FIXED
        &&& 0 <= self.pitch_limit <= MAX_FIXED
    }

    /// Build settings, rejecting values outside the exact-arithmetic range.
    pub fn new(sensitivity: i64, pitch_limit: i64) -> (r: Option<MouseSettings>)
        ensures
            r is Some <==> (-MAX_FIXED <= sensitivity <= MAX_FIXED
                && 0 <= pitch_limit <= MAX_FIXED),
            r matches Some(s) ==> s == (MouseSettings { sensitivity, pitch_limit }) && s.wf(),
    {
        if -MAX_FIXED <= sensitivity && sensitivity <= MAX_FIXED && 0 <= pitch_limit
            && pitch_limit <= MAX_FIXED {
            Some(MouseSettings { sensitivity, pitch_limit })
        } else {
            None
        }
    }
}

/// Orientation of the controlled view: unbounded yaw, clamped pitch.
#[derive(Clone, Copy, PartialEq, Eq, Structural, Debug)]
pub struct OrientationState {
    pub yaw: i64,
    pub pitch: i64,
}

/// One look-controller step on the mathematical (unbounded) state:
/// the new `(yaw, pitch)` after one mouse sample `(dx, dy)`.
pub open spec fn look_step(
    yaw: int,
    pitch: int,
    dx: int,
    dy: int,
    sensitivity: int,
    limit: int,
) -> (int, int) {
    (
        yaw - div_towards_zero(dx * sensitivity, SCALE as int),
        clamped(pitch - div_towards_zero(dy * sensitivity, SCALE as int), -limit, limit),
    )
}

/// The state after folding a whole sequence of mouse samples.
pub open spec fn look_after(
    yaw: int,
    pitch: int,
    deltas: Seq<(int, int)>,
    sensitivity: int,
    limit: int,
) -> (int, int)
    decreases deltas.len(),
{
    if deltas.len() == 0 {
        (yaw, pitch)
    } else {
        let st = look_step(yaw, pitch, deltas[0].0, deltas[0].1, sensitivity, limit);
        look_after(st.0, st.1, deltas.drop_first(), sensitivity, limit)
    }
}

impl OrientationState {
    /// Pitch within the configured limit.
    pub open spec fn wf(self, settings: MouseSettings) -> bool {
        -settings.pitch_limit <= self.pitch <= settings.pitch_limit
    }

    /// The initial orientation: looking straight ahead.
    pub fn new() -> (s: OrientationState)
        ensures
            s == (OrientationState { yaw: 0, pitch: 0 }),
    {
        OrientationState { yaw: 0, pitch: 0 }
    }

    /// Apply one frame's accumulated mouse delta.
    ///
    /// The new state is exactly one [`look_step`]: yaw moves by
    /// `-dx * sensitivity`, pitch by `-dy * sensitivity` and is then
    /// clamped into `[-pitch_limit, +pitch_limit]`.
    pub fn apply_mouse_delta(&mut self, dx: i64, dy: i64, settings: &MouseSettings)
        requires
            settings.wf(),
            -MAX_FIXED <= dx <= MAX_FIXED,
            -MAX_FIXED <= dy <= MAX_FIXED,
            -MAX_FIXED <= old(self).pitch <= MAX_FIXED,
            -YAW_RANGE <= old(self).yaw <= YAW_RANGE,
        ensures
            (final(self).yaw as int, final(self).pitch as int) == look_step(
                old(self).yaw as int,
                old(self).pitch as int,
                dx as int,
                dy as int,
                settings.sensitivity as int,
                settings.pitch_limit as int,
            ),
            final(self).wf(*settings),
    {
        proof {
            lemma_fixed_mul_magnitude(dx as int, settings.sensitivity as int);
            lemma_fixed_mul_magnitude(dy as int, settings.sensitivity as int);
        }
        let yaw_step: i64 = fixed_mul(dx, settings.sensitivity);
        let pitch_step: i64 = fixed_mul(dy, settings.sensitivity);
        self.yaw = self.yaw - yaw_step;
        let raw_pitch: i64 = self.pitch - pitch_step;
        self.pitch = clamp_fixed(raw_pitch, -settings.pitch_limit, settings.pitch_limit);
    }
}

/// Clamp invariant: whatever mouse-delta sequence is applied, the pitch is
/// within `[-limit, +limit]` afterwards — for any sequence with at least
/// one sample, and for any starting pitch already inside the limit.
pub proof fn lemma_pitch_always_clamped(
    yaw: int,
    pitch: int,
    deltas: Seq<(int, int)>,
    sensitivity: int,
    limit: int,
)
    requires
        0 <= limit,
        deltas.len() > 0 || -limit <= pitch <= limit,
    ensures
        -limit <= look_after(yaw, pitch, deltas, sensitivity, limit).1 <= limit,
    decreases deltas.len(),
{
    if deltas.len() > 0 {
        let st = look_step(yaw, pitch, deltas[0].0, deltas[0].1, sensitivity, limit);
        lemma_pitch_always_clamped(st.0, st.1, deltas.drop_first(), sensitivity, limit);
    }
}

/// Idempotence on a quiet frame: a zero mouse delta leaves the orientation
/// state unchanged.
pub proof fn lemma_zero_delta_identity(yaw: int, pitch: int, sensitivity: int, limit: int)
    requires
        0 <= limit,
        -limit <= pitch <= limit,
    ensures
        look_step(yaw, pitch, 0, 0, sensitivity, limit) == (yaw, pitch),
{
    assert(0 * sensitivity == 0);
    assert(div_towards_zero(0, SCALE as int) == 0) by {
        vstd::arithmetic::div_mod::lemma_div_of0(SCALE as int);
    };
}

} // verus!
