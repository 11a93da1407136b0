use moontui::trig::{
    cos_mdeg, div_euclid_i64, isqrt_u64, rem_euclid_i128, sin_mdeg, FULL_TURN_MDEG, SCALE,
};

#[test]
fn sine_hits_the_exact_anchors() {
    assert_eq!(sin_mdeg(0), 0);
    assert_eq!(sin_mdeg(90_000), SCALE);
    assert_eq!(sin_mdeg(180_000), 0);
    assert_eq!(sin_mdeg(270_000), -SCALE);
    // the quadratic approximation is exact at thirty degrees as well
    assert_eq!(sin_mdeg(30_000), SCALE / 2);
    assert_eq!(sin_mdeg(150_000), SCALE / 2);
}

#[test]
fn sine_is_bounded_and_mirrored() {
    let mut a: u64 = 0;
    while a < FULL_TURN_MDEG {
        let s = sin_mdeg(a);
        assert!(-SCALE <= s && s <= SCALE, "sine out of range at {}", a);
        if a <= 180_000 {
            assert_eq!(s, sin_mdeg(180_000 - a), "mirror symmetry broken at {}", a);
            assert!(s >= 0);
        } else {
            assert!(s <= 0);
        }
        a += 1500;
    }
}

#[test]
fn cosine_matches_the_shifted_sine() {
    for a in (0..FULL_TURN_MDEG).step_by(7321) {
        let c = cos_mdeg(a);
        let shifted = sin_mdeg((a + 90_000) % FULL_TURN_MDEG);
        assert_eq!(c, shifted, "cosine mismatch at {}", a);
    }
    assert_eq!(cos_mdeg(0), SCALE);
    assert_eq!(cos_mdeg(180_000), -SCALE);
}

#[test]
fn integer_square_root_is_tight() {
    for &n in &[0u64, 1, 2, 3, 4, 99, 100, 101, 999_999_999_999, 1_000_000_000_000] {
        let r = isqrt_u64(n);
        assert!(r * r <= n, "root too large for {}", n);
        assert!((r + 1) * (r + 1) > n, "root too small for {}", n);
    }
    assert_eq!(isqrt_u64(1_000_000_000_000), 1_000_000);
}

#[test]
fn euclidean_remainder_and_quotient() {
    assert_eq!(rem_euclid_i128(370_000, 360_000), 10_000);
    assert_eq!(rem_euclid_i128(-10_000, 360_000), 350_000);
    assert_eq!(rem_euclid_i128(-720_000, 360_000), 0);
    assert_eq!(div_euclid_i64(7, 2), 3);
    assert_eq!(div_euclid_i64(-7, 2), -4);
    assert_eq!(div_euclid_i64(-8, 2), -4);
    // quotient and remainder fit together
    for &(x, d) in &[(123_456i64, 1000u64), (-123_456, 1000), (-1, 7), (0, 5)] {
        let q = div_euclid_i64(x, d);
        let r = rem_euclid_i128(x as i128, d) as i64;
        assert_eq!(q * d as i64 + r, x);
        assert!(0 <= r && r < d as i64);
    }
}
