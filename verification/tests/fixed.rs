use orbit_cam::fx::{clamp_fx, fp_mul, sat_add, FX_MAX, SCALE};

#[test]
fn fp_mul_exact_products() {
    assert_eq!(fp_mul(3_000_000, 2_000_000), 6_000_000);
    assert_eq!(fp_mul(-3_000_000, 2_000_000), -6_000_000);
    assert_eq!(fp_mul(3_000_000, -2_000_000), -6_000_000);
    assert_eq!(fp_mul(-3_000_000, -2_000_000), 6_000_000);
    assert_eq!(fp_mul(0, 123_456), 0);
    assert_eq!(fp_mul(SCALE, 123_456), 123_456);
}

#[test]
fn fp_mul_truncates_toward_zero() {
    assert_eq!(fp_mul(1, 1), 0);
    assert_eq!(fp_mul(1_500_000, 1), 1);
    assert_eq!(fp_mul(-1_500_000, 1), -1);
    assert_eq!(fp_mul(999_999, 1), 0);
}

#[test]
fn fp_mul_saturates() {
    assert_eq!(fp_mul(FX_MAX, FX_MAX), FX_MAX);
    assert_eq!(fp_mul(FX_MAX, -FX_MAX), -FX_MAX);
    assert_eq!(fp_mul(-FX_MAX, -FX_MAX), FX_MAX);
}

#[test]
fn sat_add_exact_and_saturating() {
    assert_eq!(sat_add(5, 7), 12);
    assert_eq!(sat_add(-5, 2), -3);
    assert_eq!(sat_add(FX_MAX, 1), FX_MAX);
    assert_eq!(sat_add(-FX_MAX, -1), -FX_MAX);
    assert_eq!(sat_add(i64::MIN, 0), -FX_MAX);
}

#[test]
fn clamp_pulls_into_range() {
    assert_eq!(clamp_fx(4, 5, 30), 5);
    assert_eq!(clamp_fx(17, 5, 30), 17);
    assert_eq!(clamp_fx(31, 5, 30), 30);
    assert_eq!(clamp_fx(5, 5, 30), 5);
    assert_eq!(clamp_fx(30, 5, 30), 30);
}
