use gpu_gallery::fixed::{fx_mul, ONE};

#[test]
fn fx_mul_exact_products() {
    assert_eq!(fx_mul(ONE, ONE), ONE);
    assert_eq!(fx_mul(2 * ONE, 3 * ONE), 6 * ONE);
    assert_eq!(fx_mul(ONE / 2, ONE / 2), ONE / 4);
    assert_eq!(fx_mul(0, 12345), 0);
    assert_eq!(fx_mul(12345, 0), 0);
}

#[test]
fn fx_mul_negative_products() {
    assert_eq!(fx_mul(-2 * ONE, 3 * ONE), -6 * ONE);
    assert_eq!(fx_mul(-2 * ONE, -3 * ONE), 6 * ONE);
    assert_eq!(fx_mul(2 * ONE, -3 * ONE), -6 * ONE);
}

#[test]
fn fx_mul_rounds_toward_zero() {
    // 3 / 4096 rounds to zero from either side, where floor division
    // would give -1 on the negative side.
    assert_eq!(fx_mul(3, 1), 0);
    assert_eq!(fx_mul(-3, 1), 0);
    assert_eq!(fx_mul(3, -1), 0);
    // -2048 * 3 = -6144; scaled and truncated toward zero: -1.
    assert_eq!(fx_mul(-(ONE / 2), 3), -1);
}

#[test]
fn fx_mul_is_commutative() {
    assert_eq!(fx_mul(12345, -678), fx_mul(-678, 12345));
    assert_eq!(fx_mul(4095, 4097), fx_mul(4097, 4095));
}
