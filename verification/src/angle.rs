//! Angular setpoints and the angle-to-pulse-width converter.
//!
//! An angle is held in micro-degrees. The converter maps an angle `a` (in
//! degrees) to a PWM high-time of `a * 2 / 180 + 0.5` milliseconds within a
//! 20 ms period, rounded to whole nanoseconds: `round(a_micro / 90) +
//! 500_000` nanoseconds when `a_micro` is the angle in micro-degrees. 0
//! degrees commands a 0.5 ms
//! pulse and 90 degrees a 1.5 ms pulse, the standard hobby-servo convention.

use vstd::prelude::*;

verus! {

/// An angular setpoint in micro-degrees (millionths of a degree).
#[derive(Clone, Copy, PartialEq, Eq, Structural, Debug)]
pub struct Angle {
    pub micro_deg: i64,
}

/// `n / d` rounded to the nearest integer, halves away from zero.
/// This is the rounding that `round` performs on the mathematical quotient.
pub open spec fn rounded_div(n: int, d: int) -> int
    recommends
        d > 0,
{
    if n >= 0 {
        (n + d / 2) / d
    } else {
        -((-n + d / 2) / d)
    }
}

/// The pulse width in nanoseconds commanded for an angle of `a` micro-degrees:
/// `round(a / 90) + 500_000`, clamped below at zero (a duration cannot be
/// negative; far-out-of-range negative angles saturate to a zero-width pulse).
pub open spec fn pulse_width_ns_spec(a: int) -> int {
    let raw = rounded_div(a, 90) + 500_000;
    if raw < 0 {
        0
    } else {
        raw
    }
}

impl Angle {
    /// The angle, in micro-degrees, as a mathematical integer.
    pub open spec fn as_micro(self) -> int {
        self.micro_deg as int
    }
}

/// Convert an angle to the PWM pulse width that commands it, in nanoseconds.
/// Total over every representable angle; pure arithmetic, never fails.
pub fn pulse_width_ns(angle: Angle) -> (p: u64)
    ensures
        p as int == pulse_width_ns_spec(angle.as_micro()),
{
    let a: i64 = angle.micro_deg;
    if a >= 0 {
        let q: u64 = ((a as u64) + 45) / 90;
        q + 500_000
    } else {
        let m: u128 = (-(a as i128)) as u128;
        let q: u128 = (m + 45) / 90;
        if q >= 500_000 {
            0
        } else {
            (500_000 - q) as u64
        }
    }
}

/// The converter is deterministic: any two pulse widths computed for the same
/// angle are equal. Together with its totality (it has no precondition) this
/// makes it a pure total function of the angle.
pub proof fn lemma_pulse_width_deterministic(a: int, p1: int, p2: int)
    requires
        p1 == pulse_width_ns_spec(a),
        p2 == pulse_width_ns_spec(a),
    ensures
        p1 == p2,
{
}

} // verus!
