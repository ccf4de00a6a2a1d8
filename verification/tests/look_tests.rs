use locomotion_core::look::{MouseSettings, OrientationState};
use locomotion_core::math::{clamp_fixed, fixed_mul, isqrt, SCALE};

fn settings() -> MouseSettings {
    // sensitivity 0.04 degrees per count, pitch limit 90 degrees
    MouseSettings::new(40_000, 90 * SCALE).unwrap()
}

#[test]
fn pitch_saturates_at_limit_after_large_delta() {
    let s = settings();
    let mut o = OrientationState::new();
    // 5000 counts downwards: 5000 * 0.04 = 200 degrees, far past the limit
    o.apply_mouse_delta(0, 5_000 * SCALE, &s);
    assert_eq!(o.pitch, -90 * SCALE);
    // and upwards past the other end
    o.apply_mouse_delta(0, -10_000 * SCALE, &s);
    assert_eq!(o.pitch, 90 * SCALE);
}

#[test]
fn pitch_stays_within_limit_over_a_delta_sequence() {
    let s = settings();
    let mut o = OrientationState::new();
    let deltas = [
        (2_500_000i64, -4_000_000_000i64),
        (-1_000_000, 9_000_000_000),
        (0, -123_456_789),
        (7, 98_765_432_100),
    ];
    for (dx, dy) in deltas {
        o.apply_mouse_delta(dx, dy, &s);
        assert!(-90 * SCALE <= o.pitch && o.pitch <= 90 * SCALE);
    }
}

#[test]
fn zero_delta_leaves_orientation_unchanged() {
    let s = settings();
    let mut o = OrientationState::new();
    o.apply_mouse_delta(2_500_000, 1_250_000, &s);
    let before = o;
    o.apply_mouse_delta(0, 0, &s);
    assert_eq!(o, before);
}

#[test]
fn yaw_moves_by_sensitivity_scaled_delta() {
    let s = settings();
    let mut o = OrientationState::new();
    // 2.5 counts right: yaw -= 2.5 * 0.04 = 0.1 degrees
    o.apply_mouse_delta(2_500_000, 0, &s);
    assert_eq!(o.yaw, -100_000);
    assert_eq!(o.pitch, 0);
}

#[test]
fn pitch_update_is_exact_inside_the_limit() {
    let s = settings();
    let mut o = OrientationState::new();
    // 30 counts up: pitch -= 30 * 0.04 = 1.2 degrees, well within 90
    o.apply_mouse_delta(0, 30_000_000, &s);
    assert_eq!(o.pitch, -1_200_000);
}

#[test]
fn mouse_settings_reject_out_of_range_values() {
    assert!(MouseSettings::new(40_000, -1).is_none());
    assert!(MouseSettings::new(2_000_000_000_000, 90 * SCALE).is_none());
    assert!(MouseSettings::new(40_000, 90 * SCALE).is_some());
}

#[test]
fn fixed_mul_truncates_towards_zero() {
    assert_eq!(fixed_mul(1_500_000, 1_500_000), 2_250_000); // 1.5 * 1.5 = 2.25
    assert_eq!(fixed_mul(-1, 1), 0); // tiny negative product truncates to zero
    assert_eq!(fixed_mul(3, 500_000), 1); // 3 steps * 0.5 rounds towards zero
}

#[test]
fn clamp_fixed_pins_values_to_the_interval() {
    assert_eq!(clamp_fixed(5, -2, 2), 2);
    assert_eq!(clamp_fixed(-5, -2, 2), -2);
    assert_eq!(clamp_fixed(1, -2, 2), 1);
}

#[test]
fn isqrt_rounds_down() {
    assert_eq!(isqrt(0), 0);
    assert_eq!(isqrt(1), 1);
    assert_eq!(isqrt(2), 1);
    assert_eq!(isqrt(1_000_000_000_000), 1_000_000);
    assert_eq!(isqrt(999_999_999_999), 999_999);
    assert_eq!(isqrt(u64::MAX), 4_294_967_295);
}
