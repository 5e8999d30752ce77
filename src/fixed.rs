//! Fixed-point helpers: values in thousandths, rounded to hundredths.

use vstd::prelude::*;

verus! {

/// Largest magnitude of a numerator accepted by the rounding functions.
pub const NUMER_BOUND: i64 = 0x1000_0000_0000_0000;

/// Largest denominator accepted by the rounding functions.
pub const DENOM_BOUND: i64 = 0x1_0000_0000;

/// `n / d` rounded to the nearest integer, halves away from zero.
pub open spec fn round_div(n: int, d: int) -> int
    recommends
        d > 0,
{
    if n >= 0 {
        (2 * n + d) / (2 * d)
    } else {
        -((-2 * n + d) / (2 * d))
    }
}

/// The value `num / den` thousandths rounded to two decimal digits, still
/// expressed in thousandths (so always a multiple of ten).
pub open spec fn round_hundredths(num: int, den: int) -> int
    recommends
        den > 0,
{
    10 * round_div(num, 10 * den)
}

/// Rounds `num / den` thousandths to two decimal digits.
pub fn round2_ratio(num: i64, den: i64) -> (r: i64)
    requires
        -NUMER_BOUND <= num <= NUMER_BOUND,
        0 < den <= DENOM_BOUND,
    ensures
        r == round_hundredths(num as int, den as int),
        num >= 0 ==> 0 <= r <= num + 5,
        num < 0 ==> num - 5 <= r <= 0,
{
    let d: i64 = 10 * den;
    let q: i64 = if num >= 0 {
        (2 * num + d) / (2 * d)
    } else {
        -((-2 * num + d) / (2 * d))
    };
    proof {
        lemma_round_div_bounded(num as int, d as int);
    }
    10 * q
}

/// Rounds `num / den` to the nearest integer, halves away from zero.
pub fn round_ratio(num: i64, den: i64) -> (r: i64)
    requires
        -NUMER_BOUND <= num <= NUMER_BOUND,
        10 <= den <= DENOM_BOUND,
    ensures
        r == round_div(num as int, den as int),
{
    let q: i64 = if num >= 0 {
        (2 * num + den) / (2 * den)
    } else {
        let m: i64 = 0 - num;
        0 - (2 * m + den) / (2 * den)
    };
    proof {
        lemma_round_div_bounded(num as int, den as int);
    }
    q
}

/// Rounds a milli value to two decimal digits.
pub fn round2(x: i64) -> (r: i64)
    requires
        -NUMER_BOUND <= x <= NUMER_BOUND,
    ensures
        r == round_hundredths(x as int, 1),
        r % 10 == 0,
{
    round2_ratio(x, 1)
}

proof fn lemma_round_div_bounded(n: int, d: int)
    requires
        d >= 10,
    ensures
        n >= 0 ==> 0 <= 10 * round_div(n, d) <= n + 5,
        n < 0 ==> n - 5 <= 10 * round_div(n, d) <= 0,
{
    let m = if n >= 0 { n } else { -n };
    let q = (2 * m + d) / (2 * d);
    vstd::arithmetic::div_mod::lemma_fundamental_div_mod(2 * m + d, 2 * d);
    vstd::arithmetic::div_mod::lemma_mod_pos_bound(2 * m + d, 2 * d);
    assert(q >= 0) by (nonlinear_arith)
        requires
            q == (2 * m + d) / (2 * d),
            m >= 0,
            d >= 10,
    ;
    assert(10 * q <= m + 5) by (nonlinear_arith)
        requires
            2 * m + d == 2 * d * q + (2 * m + d) % (2 * d),
            (2 * m + d) % (2 * d) >= 0,
            m >= 0,
            q >= 0,
            d >= 10,
    ;
}

/// A value that is already a multiple of ten thousandths is left unchanged
/// by rounding to hundredths.
pub proof fn lemma_round_exact(k: int, den: int)
    requires
        den > 0,
    ensures
        round_hundredths(10 * k * den, den) == 10 * k,
{
    let d = 10 * den;
    let m = if k >= 0 { k } else { -k };
    assert(10 * k * den == k * d) by (nonlinear_arith)
        requires
            d == 10 * den,
    ;
    assert(2 * (m * d) + d == (2 * d) * m + d) by (nonlinear_arith);
    vstd::arithmetic::div_mod::lemma_fundamental_div_mod_converse(
        2 * (m * d) + d,
        2 * d,
        m,
        d,
    );
    if k < 0 {
        assert(-2 * (k * d) == 2 * (m * d) && k * d < 0) by (nonlinear_arith)
            requires
                m == -k,
                k < 0,
                d > 0,
        ;
        assert(round_div(k * d, d) == -m);
    } else {
        assert(k * d >= 0) by (nonlinear_arith)
            requires
                k >= 0,
                d > 0,
        ;
        assert(round_div(k * d, d) == m);
    }
}

/// Rounding to two decimal digits is idempotent.
pub proof fn lemma_round2_idempotent(x: int)
    ensures
        round_hundredths(round_hundredths(x, 1), 1) == round_hundredths(x, 1),
{
    let k = round_div(x, 10);
    lemma_round_exact(k, 1);
    assert(10 * k * 1 == 10 * k);
}

/// Rounding to hundredths is monotone in the numerator.
pub proof fn lemma_round_monotone(a: int, b: int, den: int)
    requires
        den > 0,
        a <= b,
    ensures
        round_hundredths(a, den) <= round_hundredths(b, den),
{
    let d = 10 * den;
    if a >= 0 {
        assert((2 * a + d) / (2 * d) <= (2 * b + d) / (2 * d)) by (nonlinear_arith)
            requires
                d > 0,
                a <= b,
        ;
    } else if b >= 0 {
        assert((-2 * a + d) / (2 * d) >= 0) by (nonlinear_arith)
            requires
                d > 0,
                a < 0,
        ;
        assert((2 * b + d) / (2 * d) >= 0) by (nonlinear_arith)
            requires
                d > 0,
                b >= 0,
        ;
    } else {
        assert((-2 * b + d) / (2 * d) <= (-2 * a + d) / (2 * d)) by (nonlinear_arith)
            requires
                d > 0,
                a <= b,
        ;
    }
}

} // verus!
