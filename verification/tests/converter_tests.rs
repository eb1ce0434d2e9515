//! The angle-to-pulse-width converter on concrete angles.

use servo_sweep::angle::{pulse_width_ns, Angle};

/// 0 degrees commands the neutral 0.5 ms pulse.
#[test]
fn pulse_width_at_zero_degrees() {
    assert_eq!(pulse_width_ns(Angle { micro_deg: 0 }), 500_000);
}

/// 90 degrees commands a 1.5 ms pulse.
#[test]
fn pulse_width_at_ninety_degrees() {
    assert_eq!(pulse_width_ns(Angle { micro_deg: 90_000_000 }), 1_500_000);
}

/// 180 degrees commands a 2.5 ms pulse.
#[test]
fn pulse_width_at_one_eighty_degrees() {
    assert_eq!(pulse_width_ns(Angle { micro_deg: 180_000_000 }), 2_500_000);
}

/// The converter matches round((a * 2 / 180 + 0.5) * 1_000_000) nanoseconds
/// on a spread of angles, the formula evaluated in floating point.
#[test]
fn pulse_width_matches_float_formula() {
    let degrees: [f64; 7] = [0.0, 10.0, 45.0, 75.0, 90.0, 113.0, 180.0];
    for d in degrees {
        let expected: u64 = ((d * 2.0 / 180.0 + 0.5) * 1_000_000.0).round() as u64;
        let got: u64 = pulse_width_ns(Angle {
            micro_deg: (d * 1_000_000.0).round() as i64,
        });
        assert_eq!(got, expected, "angle {} degrees", d);
    }
}

/// A negative angle whose formula value would be a negative duration
/// saturates to a zero-width pulse, as a cast of a negative duration does.
#[test]
fn pulse_width_saturates_below_zero() {
    assert_eq!(pulse_width_ns(Angle { micro_deg: -90_000_000 }), 0);
    // The boundary: -45 degrees maps exactly to a zero-width pulse.
    assert_eq!(pulse_width_ns(Angle { micro_deg: -45_000_000 }), 0);
    assert_eq!(pulse_width_ns(Angle { micro_deg: -44_999_910 }), 1);
}

/// The converter is pure and total: two calls on the same angle agree, and
/// the extremes of the representable range return without failing.
#[test]
fn pulse_width_is_pure_and_total() {
    let a = Angle { micro_deg: 31_415_926 };
    assert_eq!(pulse_width_ns(a), pulse_width_ns(a));
    let _ = pulse_width_ns(Angle { micro_deg: i64::MAX });
    let _ = pulse_width_ns(Angle { micro_deg: i64::MIN });
}
