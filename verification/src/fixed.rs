//! Fixed-point ratios in millionths.

use vstd::prelude::*;

verus! {

/// One whole, in millionths.
pub const PPM: i128 = 1_000_000;

/// Largest amount of one trade that the rolling state takes in, in
/// lamports: the largest change a balance can show over a transaction, a
/// whole 64-bit balance with a 64-bit fee added back.
pub const MAX_SOL_AMOUNT: u128 = 36_893_488_147_419_103_230;

/// Largest magnitude a net flow over one window can have, in lamports: the
/// largest number of trades times the largest amount of one trade.
pub const MAX_FLOW: i128 = 79_228_162_477_370_849_441_829_879_810;

/// The magnitude of `x`.
pub open spec fn magnitude(x: int) -> int {
    if x >= 0 {
        x
    } else {
        -x
    }
}

/// `num / den` rounded toward zero.
pub open spec fn truncated_quotient(num: int, den: int) -> int
    recommends
        den != 0,
{
    let q = magnitude(num) / magnitude(den);
    if (num >= 0) == (den > 0) {
        q
    } else {
        -q
    }
}

/// `num / den` in millionths, rounded toward zero; zero where `den` is zero.
pub open spec fn ratio_ppm(num: int, den: int) -> int {
    if den == 0 {
        0
    } else {
        truncated_quotient(num * 1_000_000, den)
    }
}

/// The smaller of one and `num / den`, in millionths, rounded down.
pub open spec fn capped_ratio_ppm(num: int, den: int) -> int
    recommends
        num >= 0,
        den > 0,
{
    if num >= den {
        1_000_000
    } else {
        (num * 1_000_000) / den
    }
}

/// A capped ratio lies between zero and one whole.
pub proof fn lemma_capped_ratio_bounds(num: int, den: int)
    requires
        num >= 0,
        den > 0,
    ensures
        0 <= capped_ratio_ppm(num, den) <= 1_000_000,
{
    if num < den {
        assert(0 <= (num * 1_000_000) / den <= 1_000_000) by (nonlinear_arith)
            requires
                0 <= num < den,
        ;
    }
}

/// The largest flow is the largest number of trades times the largest
/// amount of one trade.
pub proof fn lemma_max_flow()
    ensures
        MAX_FLOW == 2_147_483_647 * MAX_SOL_AMOUNT,
        MAX_SOL_AMOUNT == 2 * u64::MAX,
{
    assert(2_147_483_647 * 36_893_488_147_419_103_230 == 79_228_162_477_370_849_441_829_879_810int);
}

/// The magnitude of `x`.
pub fn magnitude_of(x: i128) -> (m: u128)
    requires
        x > i128::MIN,
    ensures
        m == magnitude(x as int),
{
    if x >= 0 {
        x as u128
    } else {
        (-x) as u128
    }
}

/// `num / den` in millionths, rounded toward zero; zero where `den` is zero.
pub fn signed_ratio(num: i128, den: i128) -> (r: i128)
    requires
        -MAX_FLOW <= num <= MAX_FLOW,
        -MAX_FLOW <= den <= MAX_FLOW,
    ensures
        r == ratio_ppm(num as int, den as int),
{
    if den == 0 {
        return 0;
    }
    let n: u128 = magnitude_of(num);
    let d: u128 = magnitude_of(den);
    assert(n * 1_000_000 <= 79_228_162_477_370_849_441_829_879_810 * 1_000_000) by (nonlinear_arith)
        requires
            n <= 79_228_162_477_370_849_441_829_879_810,
    ;
    let scaled: u128 = n * 1_000_000;
    let q: u128 = scaled / d;
    proof {
        assert(magnitude(num as int * 1_000_000) == scaled) by (nonlinear_arith)
            requires
                scaled == magnitude(num as int) * 1_000_000,
        ;
        assert(q <= scaled) by (nonlinear_arith)
            requires
                q == scaled / d,
                d >= 1,
        ;
        assert((num as int * 1_000_000 >= 0) == (num >= 0)) by (nonlinear_arith);
    }
    if (num >= 0) == (den > 0) {
        q as i128
    } else {
        -(q as i128)
    }
}

/// The smaller of one and `num / den`, in millionths, rounded down.
pub fn capped_ratio(num: u128, den: u128) -> (r: i64)
    requires
        den > 0,
        num <= 4 * MAX_FLOW,
    ensures
        r == capped_ratio_ppm(num as int, den as int),
        0 <= r <= 1_000_000,
{
    proof {
        lemma_capped_ratio_bounds(num as int, den as int);
    }
    if num >= den {
        1_000_000
    } else {
        assert(num * 1_000_000 <= 4 * 79_228_162_477_370_849_441_829_879_810 * 1_000_000)
            by (nonlinear_arith)
            requires
                num <= 4 * 79_228_162_477_370_849_441_829_879_810,
        ;
        ((num * 1_000_000) / den) as i64
    }
}

} // verus!
