//! Fixed-point angle, rotation and generator behaviour.

use shipsim::geom::Vec2;
use shipsim::rng::new_rng;
use shipsim::trig::{cos_fp, normalize_heading, rot_vec, sin_fp, HALF_PI_URAD, PI_URAD, TAU_URAD, TRIG_SCALE};

#[test]
fn normalize_keeps_band_representative() {
    assert_eq!(normalize_heading(0), 0);
    assert_eq!(normalize_heading(5), 5);
    assert_eq!(normalize_heading(TAU_URAD), 0);
    assert_eq!(normalize_heading(TAU_URAD + 7), 7);
    assert_eq!(normalize_heading(-100), TAU_URAD - 100);
    assert_eq!(normalize_heading(-3 * TAU_URAD - 1), TAU_URAD - 1);
    assert_eq!(normalize_heading(10 * TAU_URAD + HALF_PI_URAD), HALF_PI_URAD);
}

#[test]
fn trig_exact_at_quarter_turns() {
    assert_eq!(sin_fp(0), 0);
    assert_eq!(cos_fp(0), TRIG_SCALE);
    assert_eq!(sin_fp(HALF_PI_URAD), TRIG_SCALE);
    assert_eq!(sin_fp(PI_URAD), 0);
    assert_eq!(sin_fp(PI_URAD + HALF_PI_URAD), -TRIG_SCALE);
}

#[test]
fn rotation_by_zero_is_identity() {
    let v = Vec2 { x: 123_456, y: -789 };
    assert_eq!(rot_vec(0, v), v);
}

#[test]
fn rotation_by_quarter_turn_swaps_axes() {
    let r = rot_vec(HALF_PI_URAD, Vec2 { x: 1_000, y: 0 });
    assert_eq!(r, Vec2 { x: 0, y: 1_000 });
    let r2 = rot_vec(-HALF_PI_URAD, Vec2 { x: 1_000, y: 0 });
    assert_eq!(r2, Vec2 { x: 0, y: -1_000 });
}

#[test]
fn generator_streams_repeat_for_equal_seeds() {
    let mut a = new_rng(42);
    let mut b = new_rng(42);
    for _ in 0..32 {
        assert_eq!(a.gen_range(-17_000, 17_000), b.gen_range(-17_000, 17_000));
    }
    let mut c = new_rng(43);
    let mut differs = false;
    let mut a2 = new_rng(42);
    for _ in 0..32 {
        if a2.gen_range(0, TAU_URAD) != c.gen_range(0, TAU_URAD) {
            differs = true;
        }
    }
    assert!(differs);
}

#[test]
fn generator_values_stay_in_band() {
    let mut r = new_rng(7);
    for _ in 0..100 {
        let v = r.gen_range(-35_000, 35_000);
        assert!(-35_000 <= v && v < 35_000);
        let a = r.gen_range(0, TAU_URAD);
        assert!(0 <= a && a < TAU_URAD);
    }
}
