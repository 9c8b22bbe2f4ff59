use launchpad::utils::{exp_approx, ln_approx, sqrt, LN_2_SCALED};

#[test]
fn test_sqrt() {
    assert_eq!(sqrt(0), 0);
    assert_eq!(sqrt(1), 1);
    assert_eq!(sqrt(4), 2);
    assert_eq!(sqrt(9), 3);
    assert_eq!(sqrt(16), 4);
    assert_eq!(sqrt(100), 10);
}

#[test]
fn test_ln_approx() {
    assert_eq!(ln_approx(1), 0);
    assert!(ln_approx(2) > 0);
    assert!(ln_approx(10) > ln_approx(2));
}

#[test]
fn test_exp_approx() {
    assert_eq!(exp_approx(0), 1_000_000);
    assert!(exp_approx(1_000_000) > 1_000_000);
}

#[test]
fn sqrt_rounds_down_between_squares() {
    assert_eq!(sqrt(2), 1);
    assert_eq!(sqrt(3), 1);
    assert_eq!(sqrt(8), 2);
    assert_eq!(sqrt(15), 3);
    assert_eq!(sqrt(17), 4);
    assert_eq!(sqrt(99), 9);
}

#[test]
fn sqrt_of_large_numbers() {
    assert_eq!(sqrt(1u128 << 64), 1u128 << 32);
    assert_eq!(sqrt(u128::MAX), u64::MAX as u128);
    assert_eq!(
        sqrt(1_000_000_000_000_000_000_000_000_000_000),
        1_000_000_000_000_000
    );
}

#[test]
fn sqrt_brackets_its_argument() {
    let mut y: u128 = 0;
    while y < 5000 {
        let r = sqrt(y);
        assert!(r * r <= y);
        assert!(y < (r + 1) * (r + 1));
        y += 1;
    }
}

#[test]
fn ln_approx_counts_powers_of_two() {
    assert_eq!(ln_approx(0), 0);
    assert_eq!(ln_approx(2), 693_147);
    assert_eq!(ln_approx(3), 693_147);
    assert_eq!(ln_approx(4), 1_386_294);
    assert_eq!(ln_approx(10), 2_079_441);
    assert_eq!(ln_approx(1024), 6_931_470);
    assert_eq!(ln_approx(1u128 << 127), 88_029_669);
    assert_eq!(ln_approx(u128::MAX), 127 * LN_2_SCALED);
}

#[test]
fn exp_approx_sums_four_terms() {
    assert_eq!(exp_approx(1), 1_000_001);
    assert_eq!(exp_approx(1_000_000), 2_666_666);
    assert_eq!(exp_approx(2_000_000), 6_333_333);
}

#[test]
fn exp_approx_saturates() {
    assert_eq!(
        exp_approx(1u128 << 64),
        170_141_240_174_215_498_632_171_591_496_601
    );
    assert_eq!(
        exp_approx(100_000_000_000_000_000_000),
        170_141_240_174_297_051_888_097_881_944_985
    );
    assert_eq!(exp_approx(u128::MAX), u128::MAX);
}
