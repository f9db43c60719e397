use vhdx_inspector::maths::SpecificDivide;

#[test]
fn signed_floor_rounds_towards_negative_infinity() {
    assert_eq!(i64::floor_divide(-7, 2), -4);
    assert_eq!(i64::floor_divide(7, 2), 3);
    assert_eq!(i64::floor_divide(7, -2), -4);
    assert_eq!(i64::floor_divide(-7, -2), 3);
    assert_eq!(i64::floor_divide(-8, 2), -4);
    assert_eq!(i64::floor_divide(i64::MIN, 2), i64::MIN / 2);
}

#[test]
fn signed_ceiling_rounds_towards_positive_infinity() {
    assert_eq!(i64::ceiling_divide(-7, 2), -3);
    assert_eq!(i64::ceiling_divide(7, 2), 4);
    assert_eq!(i64::ceiling_divide(7, -2), -3);
    assert_eq!(i64::ceiling_divide(-7, -2), 4);
    assert_eq!(i64::ceiling_divide(8, 2), 4);
    assert_eq!(i64::ceiling_divide(i64::MAX, 2), i64::MAX / 2 + 1);
}

#[test]
fn unsigned_rounding() {
    assert_eq!(u64::ceiling_divide(10, 3), 4);
    assert_eq!(u64::ceiling_divide(9, 3), 3);
    assert_eq!(u64::ceiling_divide(0, 3), 0);
    assert_eq!(u64::ceiling_divide(u64::MAX, 2), u64::MAX / 2 + 1);
    assert_eq!(u64::floor_divide(10, 3), 3);
    assert_eq!(u64::floor_divide(u64::MAX, 1), u64::MAX);
}

#[test]
fn ceiling_is_the_least_sufficient_quotient() {
    for n in 1u64..200 {
        for d in 1u64..40 {
            let q = u64::ceiling_divide(n, d);
            assert!((q - 1) * d < n && n <= q * d, "n = {}, d = {}", n, d);
            let s = i64::ceiling_divide(n as i64, d as i64);
            assert!((s - 1) * (d as i64) < n as i64 && n as i64 <= s * d as i64);
        }
    }
}
