use beat_automation::pt1::pt1_step;
use beat_automation::sample::{
    normalize_int_range, sample_int_range, sample_palette_excluding, sample_range,
};

#[test]
fn pt1_single_step_quarter_gap() {
    // dt / (tau + dt) = 100 / 400: one quarter of the gap is closed.
    assert_eq!(pt1_step(0, 1000, 300, 100), 250);
    assert_eq!(pt1_step(1000, 0, 300, 100), 750);
}

#[test]
fn pt1_converges_monotonically_from_below() {
    let target: i64 = 1000;
    let tau: i64 = 300;
    let dt: i64 = 100;
    let mut v: i64 = 0;
    let mut prev: i64 = 0;
    for _ in 0..200 {
        v = pt1_step(v, target, tau, dt);
        assert!(v >= prev, "smoothed value moved away from the target");
        assert!(v <= target, "smoothed value overshot the target");
        prev = v;
    }
    // Settles within the integer rounding band (tau + dt - 1) / dt.
    assert!(target - v <= 3);
}

#[test]
fn pt1_converges_from_above() {
    let target: i64 = -500;
    let mut v: i64 = 2000;
    let mut prev: i64 = 2000;
    for _ in 0..300 {
        v = pt1_step(v, target, 200, 50);
        assert!(v <= prev);
        assert!(v >= target);
        prev = v;
    }
    assert!(v - target <= 4);
}

#[test]
fn pt1_zero_time_constant_is_immediate() {
    assert_eq!(pt1_step(123, 777, 0, 16), 777);
    assert_eq!(pt1_step(-4000, -9000, 0, 1), -9000);
}

#[test]
fn sample_range_stays_in_bounds() {
    for _ in 0..200 {
        let r = sample_range(10_000, 20_000);
        assert!((10_000..20_000).contains(&r));
    }
    for _ in 0..200 {
        let r = sample_range(-500, 500);
        assert!((-500..500).contains(&r));
    }
}

#[test]
fn sample_range_empty_yields_start() {
    for _ in 0..50 {
        assert_eq!(sample_range(500, 500), 500);
    }
    assert_eq!(sample_range(700, 200), 700);
}

#[test]
fn sample_range_actually_draws() {
    // A constant generator would return one value 50 times in a row;
    // over a million-wide range that is beyond astronomically unlikely.
    let first = sample_range(0, 1_000_000);
    let mut all_equal = true;
    for _ in 0..49 {
        if sample_range(0, 1_000_000) != first {
            all_equal = false;
        }
    }
    assert!(!all_equal);
}

#[test]
fn sample_int_range_unit_range_is_determined() {
    for _ in 0..20 {
        assert_eq!(sample_int_range(0, 1), 0);
        assert_eq!(sample_int_range(7, 8), 7);
    }
}

#[test]
fn palette_draw_never_repeats_current() {
    for current in 0..6 {
        for _ in 0..100 {
            let r = sample_palette_excluding(current, 6);
            assert!((0..6).contains(&r));
            assert_ne!(r, current);
        }
    }
}

#[test]
fn palette_draw_with_two_palettes_flips() {
    for _ in 0..50 {
        assert_eq!(sample_palette_excluding(0, 2), 1);
        assert_eq!(sample_palette_excluding(1, 2), 0);
    }
}

#[test]
fn palette_draw_single_palette_may_repeat() {
    assert_eq!(sample_palette_excluding(0, 1), 0);
}

#[test]
fn normalize_widens_empty_range() {
    assert_eq!(normalize_int_range(5, 3), (5, 6));
    assert_eq!(normalize_int_range(5, 5), (5, 6));
    assert_eq!(normalize_int_range(0, -10), (0, 1));
}

#[test]
fn normalize_is_idempotent() {
    let (lo, hi) = normalize_int_range(5, 3);
    assert_eq!(normalize_int_range(lo, hi), (5, 6));
    let (lo2, hi2) = normalize_int_range(2, 9);
    assert_eq!(normalize_int_range(lo2, hi2), (2, 9));
}

#[test]
fn normalize_keeps_valid_range() {
    assert_eq!(normalize_int_range(5, 9), (5, 9));
}
