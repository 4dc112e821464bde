//! The settlement and payout arithmetic, as mathematical functions over
//! `int`, and the facts the operations' proofs rest on.
//!
//! All rates are in basis points (10_000 = 100%) and every division
//! truncates toward zero; the settlement residual absorbs both truncation
//! remainders, which is what makes conservation exact.

use vstd::prelude::*;

verus! {

/// The basis-point denominator: 10_000 basis points are 100%.
pub const BPS_DENOMINATOR: u64 = 10_000;

/// The cut a basis-point rate takes of a total: `total * bps / 10_000`,
/// truncated toward zero.
pub open spec fn bps_cut(total: int, bps: int) -> int {
    total * bps / (BPS_DENOMINATOR as int)
}

/// A winning bettor's pro-rata share of the distributable pot:
/// `floor(amount * distributable / winner_pool)`.
pub open spec fn payout_share(amount: int, distributable: int, winner_pool: int) -> int
    recommends
        winner_pool > 0,
{
    amount * distributable / winner_pool
}

/// A basis-point cut of a non-negative total is non-negative and, at a rate
/// of at most 100%, no more than the total.
pub proof fn lemma_bps_cut_bounds(total: int, bps: int)
    requires
        0 <= total,
        0 <= bps,
    ensures
        0 <= bps_cut(total, bps),
        bps <= BPS_DENOMINATOR ==> bps_cut(total, bps) <= total,
{
    assert(0 <= total * bps / (BPS_DENOMINATOR as int)) by (nonlinear_arith)
        requires
            0 <= total,
            0 <= bps,
    ;
    if bps <= BPS_DENOMINATOR {
        assert(total * bps / (BPS_DENOMINATOR as int) <= total) by (nonlinear_arith)
            requires
                0 <= total,
                0 <= bps,
                bps <= BPS_DENOMINATOR as int,
        ;
    }
}

/// A pro-rata share never exceeds the distributable pot, as long as the
/// stake it is computed for is no larger than the whole winning pool.
pub proof fn lemma_payout_le_distributable(amount: int, distributable: int, winner_pool: int)
    requires
        0 <= amount,
        0 <= distributable,
        0 < winner_pool,
        amount <= winner_pool,
    ensures
        0 <= payout_share(amount, distributable, winner_pool),
        payout_share(amount, distributable, winner_pool) <= distributable,
{
    assert(0 <= amount * distributable / winner_pool) by (nonlinear_arith)
        requires
            0 <= amount,
            0 <= distributable,
            0 < winner_pool,
    ;
    assert(amount * distributable / winner_pool <= distributable) by (nonlinear_arith)
        requires
            0 <= amount,
            0 <= distributable,
            0 < winner_pool,
            amount <= winner_pool,
    ;
}

/// Payout proportionality, summed: two winning stakes that together do not
/// exceed the winning pool draw pro-rata payouts that together do not
/// exceed the distributable pot. Truncation only ever leaves dust behind,
/// it never overdraws.
pub proof fn lemma_payout_sum_le_distributable(
    amount1: int,
    amount2: int,
    distributable: int,
    winner_pool: int,
)
    requires
        0 <= amount1,
        0 <= amount2,
        0 <= distributable,
        0 < winner_pool,
        amount1 + amount2 <= winner_pool,
    ensures
        payout_share(amount1, distributable, winner_pool)
            + payout_share(amount2, distributable, winner_pool) <= distributable,
{
    let share1 = amount1 * distributable / winner_pool;
    let share2 = amount2 * distributable / winner_pool;
    assert(winner_pool * share1 <= amount1 * distributable) by (nonlinear_arith)
        requires
            0 <= amount1,
            0 <= distributable,
            0 < winner_pool,
            share1 == amount1 * distributable / winner_pool,
    ;
    assert(winner_pool * share2 <= amount2 * distributable) by (nonlinear_arith)
        requires
            0 <= amount2,
            0 <= distributable,
            0 < winner_pool,
            share2 == amount2 * distributable / winner_pool,
    ;
    assert(amount1 * distributable + amount2 * distributable <= winner_pool * distributable)
        by (nonlinear_arith)
        requires
            0 <= distributable,
            amount1 + amount2 <= winner_pool,
    ;
    assert(share1 + share2 <= distributable) by (nonlinear_arith)
        requires
            0 < winner_pool,
            winner_pool * share1 + winner_pool * share2 <= winner_pool * distributable,
    ;
}

} // verus!
