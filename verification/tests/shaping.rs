use double_movement::roots::isqrt;
use double_movement::shaping::{process_circular_direction, HALF, UNIT};

fn as_real(v: i64) -> f64 {
    v as f64 / UNIT as f64
}

/// The shaping formula in floating point: the offset vector, normalized and
/// scaled to the larger part.
fn reference(x: f64, y: f64, fraction: f64) -> (f64, f64) {
    let ox = x * (1.0 - fraction);
    let oy = y * fraction;
    let norm = (ox * ox + oy * oy).sqrt();
    let m = x.abs().max(y.abs());
    (m * ox / norm, m * oy / norm)
}

#[test]
fn isqrt_rounds_down() {
    assert_eq!(isqrt(0), 0);
    assert_eq!(isqrt(1), 1);
    assert_eq!(isqrt(2), 1);
    assert_eq!(isqrt(3), 1);
    assert_eq!(isqrt(4), 2);
    assert_eq!(isqrt(99), 9);
    assert_eq!(isqrt(100), 10);
    assert_eq!(isqrt(1_000_000_000_000), 1_000_000);
    assert_eq!(isqrt(999_999_999_999), 999_999);
    assert_eq!(isqrt(u128::MAX), u64::MAX);
}

#[test]
fn no_input_gives_origin() {
    for fraction in [1, 100_000, HALF, 670_000, 900_000, UNIT] {
        assert_eq!(process_circular_direction(0, 0, fraction, None), (0, 0));
        assert_eq!(process_circular_direction(0, 0, fraction, Some(780_000)), (0, 0));
    }
}

#[test]
fn single_axis_keeps_full_magnitude() {
    for fraction in [1, 100_000, HALF, 670_000, 900_000, UNIT] {
        assert_eq!(process_circular_direction(UNIT, 0, fraction, None), (UNIT, 0));
        assert_eq!(process_circular_direction(-UNIT, 0, fraction, None), (-UNIT, 0));
        assert_eq!(process_circular_direction(0, UNIT, fraction, None), (0, UNIT));
        assert_eq!(process_circular_direction(0, -UNIT, fraction, None), (0, -UNIT));
        assert_eq!(process_circular_direction(-UNIT, 0, fraction, Some(780_000)), (-UNIT, 0));
    }
}

#[test]
fn single_axis_keeps_partial_magnitude() {
    assert_eq!(process_circular_direction(250_000, 0, 670_000, None), (250_000, 0));
    assert_eq!(process_circular_direction(0, -1, 670_000, None), (0, -1));
}

#[test]
fn up_right_leans_up_at_default_fraction() {
    let (x, y) = process_circular_direction(UNIT, UNIT, 670_000, None);
    assert_eq!((x, y), (441_849, 897_089));
    assert!(y.abs() > x.abs());
    let (rx, ry) = reference(1.0, 1.0, 0.67);
    assert!((as_real(x) - rx).abs() < 1e-5);
    assert!((as_real(y) - ry).abs() < 1e-5);
}

#[test]
fn forward_diagonal_turns_with_fraction() {
    let low = process_circular_direction(UNIT, UNIT, 100_000, None);
    let high = process_circular_direction(UNIT, UNIT, 900_000, None);
    assert_eq!(low, (993_883, 110_431));
    assert_eq!(high, (110_431, 993_883));
    let low_angle = as_real(low.1).atan2(as_real(low.0));
    let high_angle = as_real(high.1).atan2(as_real(high.0));
    assert!(low_angle < high_angle);
}

#[test]
fn forward_diagonal_never_turns_back() {
    let mut last = process_circular_direction(UNIT, UNIT, 1, None);
    assert_eq!(last, (999_999, 1));
    let mut fraction = 50_000;
    while fraction <= UNIT {
        let next = process_circular_direction(UNIT, UNIT, fraction, None);
        assert!(next.0 <= last.0);
        assert!(next.1 >= last.1);
        last = next;
        fraction += 50_000;
    }
    assert_eq!(last, (0, UNIT));
}

#[test]
fn backward_diagonal_ignores_fraction() {
    let reference = process_circular_direction(UNIT, -UNIT, HALF, None);
    assert_eq!(reference, (707_106, -707_106));
    assert_eq!(process_circular_direction(UNIT, -UNIT, 100_000, None), reference);
    assert_eq!(process_circular_direction(UNIT, -UNIT, 900_000, None), reference);
    assert_eq!(process_circular_direction(UNIT, -UNIT, 900_000, Some(100_000)), reference);
    assert_eq!(process_circular_direction(-UNIT, -UNIT, 670_000, Some(780_000)), (-707_106, -707_106));
}

#[test]
fn second_fraction_shapes_left_forward_diagonal() {
    assert_eq!(process_circular_direction(-UNIT, UNIT, 670_000, None), (-441_849, 897_089));
    assert_eq!(process_circular_direction(-UNIT, UNIT, 670_000, Some(780_000)), (-271_460, 962_449));
    assert_eq!(process_circular_direction(UNIT, UNIT, 670_000, Some(780_000)), (441_849, 897_089));
    assert_eq!(process_circular_direction(-UNIT, UNIT, UNIT, Some(1)), (-999_999, 1));
}

#[test]
fn diagonal_keeps_length_of_larger_part() {
    let cases = [
        (300_000, UNIT, 670_000, (146_174, 989_258)),
        (UNIT, 300_000, 670_000, (854_048, 520_193)),
        (500_000, 500_000, 670_000, (220_924, 448_544)),
        (1, 1, 670_000, (0, 0)),
    ];
    for (x, y, fraction, expected) in cases {
        let (sx, sy) = process_circular_direction(x, y, fraction, None);
        assert_eq!((sx, sy), expected);
        let m = x.max(y) as i128;
        let (sx, sy) = (sx as i128, sy as i128);
        assert!(sx * sx + sy * sy <= m * m);
        assert!(m * m < (sx + 1) * (sx + 1) + (sy + 1) * (sy + 1));
    }
}

#[test]
fn analog_diagonal_matches_reference() {
    let (x, y) = process_circular_direction(300_000, UNIT, 670_000, None);
    let (rx, ry) = reference(0.3, 1.0, 0.67);
    assert!((as_real(x) - rx).abs() < 1e-5);
    assert!((as_real(y) - ry).abs() < 1e-5);
}

#[test]
fn full_fraction_puts_diagonal_on_vertical_axis() {
    assert_eq!(process_circular_direction(UNIT, UNIT, UNIT, None), (0, UNIT));
}
