//! Fixed-point arithmetic shared by prices, balances and ratios.
use vstd::prelude::*;

verus! {

/// Number of fixed-point units in one whole price or balance unit.
pub const PRICE_ONE: u64 = 1_000_000;

/// Number of basis points in a ratio of one (ratios such as `min_return`
/// and the trading fee are held in basis points).
pub const RATIO_ONE: u64 = 10_000;

/// `a * b / c`, rounded down, held at `u64::MAX` when it does not fit.
pub open spec fn mul_div_spec(a: int, b: int, c: int) -> int {
    let q = a * b / c;
    if q > u64::MAX as int {
        u64::MAX as int
    } else {
        q
    }
}

pub proof fn lemma_mul_bound(a: u64, b: u64)
    ensures
        0 <= (a as int) * (b as int) <= (u64::MAX as int) * (u64::MAX as int),
{
    assert(0 <= (a as int) * (b as int) <= (u64::MAX as int) * (u64::MAX as int)) by (nonlinear_arith)
        requires
            a <= u64::MAX,
            b <= u64::MAX,
    ;
}

/// Multiplies then divides with a wide intermediate, saturating the result.
pub fn mul_div(a: u64, b: u64, c: u64) -> (r: u64)
    requires
        c > 0,
    ensures
        r as int == mul_div_spec(a as int, b as int, c as int),
{
    proof {
        lemma_mul_bound(a, b);
    }
    let p: u128 = (a as u128) * (b as u128);
    let q: u128 = p / (c as u128);
    if q > (u64::MAX as u128) {
        u64::MAX
    } else {
        q as u64
    }
}

} // verus!
