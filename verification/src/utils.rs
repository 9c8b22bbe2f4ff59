use vstd::prelude::*;
use vstd::arithmetic::logarithm::{lemma_log0, lemma_log_nonnegative, lemma_log_s, log};
use vstd::arithmetic::power2::{lemma2_to64, lemma_pow2_adds, lemma_pow2_unfold, pow2};

verus! {

/// The natural logarithm of 2, scaled by 10^6.
pub const LN_2_SCALED: u128 = 693147;

/// One step of Newton's method for the square root of `y`, taken from a positive `x`,
/// lands on or above the integer square root.
proof fn lemma_newton_step(y: nat, x: nat)
    requires
        x > 0,
    ensures
        ((y / x + x) / 2 + 1) * ((y / x + x) / 2 + 1) > y,
{
    let q = y / x;
    let n = (q + x) / 2;
    assert(y < (q + 1) * x) by (nonlinear_arith)
        requires
            q == y / x,
            x > 0,
    ;
    assert(2 * (n + 1) >= q + x + 1);
    assert((q + 1 + x) * (q + 1 + x) >= 4 * ((q + 1) * x)) by (nonlinear_arith);
    assert(4 * ((n + 1) * (n + 1)) >= (q + 1 + x) * (q + 1 + x)) by (nonlinear_arith)
        requires
            2 * (n + 1) >= q + x + 1,
    ;
}

/// A Newton step that does not go below its starting point started at or below the
/// integer square root.
proof fn lemma_newton_fixpoint(y: nat, z: nat)
    requires
        z > 0,
        (y / z + z) / 2 >= z,
    ensures
        z * z <= y,
{
    assert(y / z >= z);
    assert(z * z <= y) by (nonlinear_arith)
        requires
            y / z >= z,
            z > 0,
    ;
}

/// Integer square root: the largest `r` whose square does not exceed `y`, found by
/// Newton's method.
pub fn sqrt(y: u128) -> (r: u128)
    ensures
        r * r <= y,
        y < (r + 1) * (r + 1),
{
    if y == 0 {
        return 0;
    }
    if y < 4 {
        return 1;
    }
    let mut z: u128 = y;
    let mut x: u128 = y / 2 + 1;
    assert((x + 1) * (x + 1) > y) by (nonlinear_arith)
        requires
            x == y / 2 + 1,
            y >= 4,
    ;
    assert((z + 1) * (z + 1) > y) by (nonlinear_arith)
        requires
            z == y,
    ;
    while x < z
        invariant
            y >= 4,
            1 <= x <= y / 2 + 1,
            1 <= z <= y,
            (x + 1) * (x + 1) > y,
            (z + 1) * (z + 1) > y,
            x == (y / z + z) / 2 || (z == y && x == y / 2 + 1),
        decreases z,
    {
        assert(x >= 2) by (nonlinear_arith)
            requires
                (x + 1) * (x + 1) > y,
                y >= 4,
                x >= 1,
        ;
        proof {
            vstd::arithmetic::div_mod::lemma_div_is_ordered_by_denominator(y as int, 2, x as int);
            lemma_newton_step(y as nat, x as nat);
        }
        z = x;
        x = (y / x + x) / 2;
    }
    proof {
        lemma_newton_fixpoint(y as nat, z as nat);
    }
    z
}

/// A number below 2^k has a binary logarithm of at most k.
proof fn lemma_log2_bounded(x: int, k: nat)
    requires
        0 <= x < pow2(k),
    ensures
        0 <= log(2, x) <= k,
    decreases k,
{
    lemma_log_nonnegative(2, x);
    if x < 2 {
        lemma_log0(2, x);
    } else {
        lemma2_to64();
        lemma_log_s(2, x);
        lemma_pow2_unfold(k);
        lemma_log2_bounded(x / 2, (k - 1) as nat);
    }
}

/// Natural logarithm of `x`, scaled by 10^6 and approximated from below by whole powers
/// of two: ln 2 times the binary logarithm of `x`, rounded down. Zero for `x <= 1`.
pub fn ln_approx(x: u128) -> (r: u128)
    ensures
        r == LN_2_SCALED * log(2, x as int),
        x <= 1 ==> r == 0,
{
    if x <= 1 {
        proof {
            lemma_log0(2, x as int);
        }
        return 0;
    }
    let mut result: u128 = 0;
    let mut temp: u128 = x;
    proof {
        lemma2_to64();
        lemma_pow2_adds(64, 64);
        assert(pow2(128) == 0x1_0000_0000_0000_0000 * 0x1_0000_0000_0000_0000);
        lemma_log2_bounded(x as int, 128);
    }
    while temp >= 2
        invariant
            0 <= log(2, x as int) <= 128,
            0 <= log(2, temp as int),
            result + LN_2_SCALED * log(2, temp as int) == LN_2_SCALED * log(2, x as int),
        decreases temp,
    {
        proof {
            lemma_log_s(2, temp as int);
            lemma_log_nonnegative(2, (temp / 2) as int);
        }
        temp /= 2;
        result += LN_2_SCALED;
    }
    proof {
        lemma_log0(2, temp as int);
    }
    result
}

/// The product of two numbers, or the largest 128-bit number where it does not fit.
pub open spec fn spec_saturating_mul(a: nat, b: nat) -> nat {
    if a * b > u128::MAX {
        u128::MAX as nat
    } else {
        a * b
    }
}

/// The first four terms of the series of e^x in fixed point with six decimal digits,
/// each power saturating at 128 bits.
pub open spec fn spec_exp_series(x: nat) -> nat {
    let square = spec_saturating_mul(x, x);
    let cube = spec_saturating_mul(square, x);
    1_000_000 + x + square / 2_000_000 + cube / 6_000_000_000_000
}

/// The product of two numbers, or the largest 128-bit number where it does not fit.
fn saturating_mul(a: u128, b: u128) -> (r: u128)
    ensures
        r == spec_saturating_mul(a as nat, b as nat),
{
    match a.checked_mul(b) {
        Some(product) => product,
        None => u128::MAX,
    }
}

/// Exponential of `x`, where `x` and the result are scaled by 10^6: the series
/// 1 + x + x^2/2 + x^3/6, saturating at the largest 128-bit number.
pub fn exp_approx(x: u128) -> (r: u128)
    ensures
        r == if spec_exp_series(x as nat) > u128::MAX {
            u128::MAX as nat
        } else {
            spec_exp_series(x as nat)
        },
        x == 0 ==> r == 1_000_000,
{
    if x == 0 {
        proof {
            assert(0nat * 0nat == 0) by (nonlinear_arith);
        }
        return 1_000_000;
    }
    let square: u128 = saturating_mul(x, x);
    let cube: u128 = saturating_mul(square, x);
    let term1: u128 = 1_000_000;
    let term2: u128 = x;
    let term3: u128 = square / 2_000_000;
    let term4: u128 = cube / 6_000_000_000_000;
    term1.saturating_add(term2).saturating_add(term3).saturating_add(term4)
}

} // verus!
