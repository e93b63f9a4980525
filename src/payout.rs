use vstd::prelude::*;
use crate::error::MarketError;

verus! {

/// The exact proportional share: `stake / winning_pool` of the whole pool,
/// rounded down.
pub open spec fn share(stake: u64, total_pool: u64, winning_pool: u64) -> int
    recommends
        winning_pool > 0,
{
    (stake as int * total_pool as int) / winning_pool as int
}

/// What a claim on `stake` pays out of a resolved pool, or why it pays nothing.
pub open spec fn payout_result(stake: u64, total_pool: u64, winning_pool: u64) -> Result<u64, MarketError> {
    if stake == 0 || winning_pool == 0 {
        Err(MarketError::NoWinnings)
    } else if stake as int * total_pool as int > u128::MAX as int {
        Err(MarketError::MathOverflow)
    } else if share(stake, total_pool, winning_pool) > u64::MAX as int {
        Err(MarketError::MathOverflow)
    } else if share(stake, total_pool, winning_pool) == 0 {
        Err(MarketError::NoWinnings)
    } else {
        Ok(share(stake, total_pool, winning_pool) as u64)
    }
}

/// Computes the payout of a winning stake, in a 128-bit intermediate.
pub fn compute_payout(stake: u64, total_pool: u64, winning_pool: u64) -> (r: Result<u64, MarketError>)
    ensures
        r == payout_result(stake, total_pool, winning_pool),
{
    if stake == 0 || winning_pool == 0 {
        return Err(MarketError::NoWinnings);
    }
    let product = match (stake as u128).checked_mul(total_pool as u128) {
        Some(p) => p,
        None => return Err(MarketError::MathOverflow),
    };
    let quotient: u128 = product / (winning_pool as u128);
    if quotient > u64::MAX as u128 {
        return Err(MarketError::MathOverflow);
    }
    let amount: u64 = quotient as u64;
    if amount == 0 {
        return Err(MarketError::NoWinnings);
    }
    Ok(amount)
}

/// Payouts are proportional to stakes up to rounding: each is the floor of its
/// exact share, the larger stake is paid at least as much as the smaller,
/// `p1 / p2` equals `s1 / s2` up to the floor (`-s2 < p1 * s2 - p2 * s1 < s1`),
/// and two stakes that together are at most the winning side's pool are paid
/// at most the whole pool together.
pub proof fn lemma_payouts_proportional(s1: u64, s2: u64, total_pool: u64, winning_pool: u64)
    requires
        payout_result(s1, total_pool, winning_pool) is Ok,
        payout_result(s2, total_pool, winning_pool) is Ok,
    ensures
        ({
            let p1 = payout_result(s1, total_pool, winning_pool)->Ok_0 as int;
            let p2 = payout_result(s2, total_pool, winning_pool)->Ok_0 as int;
            &&& p1 * winning_pool <= s1 as int * total_pool as int
            &&& (s1 as int) * (total_pool as int) < (p1 + 1) * winning_pool
            &&& p2 * winning_pool <= s2 as int * total_pool as int
            &&& (s2 as int) * (total_pool as int) < (p2 + 1) * winning_pool
            &&& s1 <= s2 ==> p1 <= p2
            &&& -(s2 as int) < p1 * s2 - p2 * s1
            &&& p1 * s2 - p2 * s1 < s1 as int
            &&& s1 as int + s2 as int <= winning_pool as int ==> p1 + p2 <= total_pool as int
        }),
{
    let w = winning_pool as int;
    let t = total_pool as int;
    let x1 = s1 as int;
    let x2 = s2 as int;
    let a = x1 * t;
    let b = x2 * t;
    let p1 = a / w;
    let p2 = b / w;
    assert(p1 * w <= a && a < (p1 + 1) * w) by (nonlinear_arith)
        requires w > 0, p1 == a / w, a >= 0;
    assert(p2 * w <= b && b < (p2 + 1) * w) by (nonlinear_arith)
        requires w > 0, p2 == b / w, b >= 0;
    if x1 + x2 <= w {
        assert(a + b <= w * t) by (nonlinear_arith)
            requires a == x1 * t, b == x2 * t, x1 + x2 <= w, t >= 0;
        assert(p1 + p2 <= t) by (nonlinear_arith)
            requires p1 * w <= a, p2 * w <= b, a + b <= w * t, w > 0;
    }
    if s1 <= s2 {
        assert(a <= b) by (nonlinear_arith)
            requires a == x1 * t, b == x2 * t, x1 <= x2, t >= 0;
        assert(p1 <= p2) by (nonlinear_arith)
            requires p1 * w <= a, a <= b, b < (p2 + 1) * w, w > 0;
    }
    // p1 * s2 * w <= s1 * s2 * t < (p2 + 1) * s1 * w, and symmetrically.
    assert(a * x2 == b * x1) by (nonlinear_arith)
        requires a == x1 * t, b == x2 * t;
    assert(p1 * x2 * w <= a * x2) by (nonlinear_arith)
        requires p1 * w <= a, x2 >= 0;
    assert(b * x1 < (p2 + 1) * w * x1 || x1 == 0) by (nonlinear_arith)
        requires b < (p2 + 1) * w, x1 >= 0;
    assert(x1 > 0);
    assert(p1 * x2 < (p2 + 1) * x1) by (nonlinear_arith)
        requires p1 * x2 * w <= a * x2, a * x2 == b * x1, b * x1 < (p2 + 1) * w * x1, w > 0;
    assert(p2 * x1 * w <= b * x1) by (nonlinear_arith)
        requires p2 * w <= b, x1 >= 0;
    assert(a * x2 < (p1 + 1) * w * x2 || x2 == 0) by (nonlinear_arith)
        requires a < (p1 + 1) * w, x2 >= 0;
    assert(x2 > 0);
    assert(p2 * x1 < (p1 + 1) * x2) by (nonlinear_arith)
        requires p2 * x1 * w <= b * x1, a * x2 == b * x1, a * x2 < (p1 + 1) * w * x2, w > 0;
    assert(-x2 < p1 * x2 - p2 * x1 && p1 * x2 - p2 * x1 < x1) by (nonlinear_arith)
        requires p1 * x2 < (p2 + 1) * x1, p2 * x1 < (p1 + 1) * x2;
}

} // verus!
