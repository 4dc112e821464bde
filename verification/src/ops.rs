//! The pool operations: create, stake, close, settle, and the two claims.
//!
//! Each operation validates its preconditions, updates the ledger entities
//! it owns, and — where value is owed — returns the [`TransferRequest`]s
//! the host must perform. A rejected operation returns the error named in
//! its contract and changes nothing. The host applies an operation
//! atomically: the returned state and the requested transfers either all
//! take effect or none do.

use vstd::prelude::*;

use crate::errors::ErrorCode;
use crate::math::{
    bps_cut, lemma_bps_cut_bounds, lemma_payout_le_distributable,
    lemma_payout_sum_le_distributable, payout_share, BPS_DENOMINATOR,
};
use crate::states::{AccountId, Bet, Pool, TransferRequest, valid_side};

verus! {

/// Creates a pool for one match: identities as given, totals zeroed,
/// betting open, settlement snapshot blank.
pub fn create_pool(
    player_a: AccountId,
    player_b: AccountId,
    match_id: AccountId,
    admin: AccountId,
    token_mint: AccountId,
    vault: AccountId,
    player_prize_vault: AccountId,
) -> (pool: Pool)
    ensures
        pool == (Pool {
            player_a,
            player_b,
            match_id,
            admin,
            token_mint,
            vault,
            player_prize_vault,
            total_for_a: 0,
            total_for_b: 0,
            is_open: true,
            is_settled: false,
            result: 0,
            winner_pool: 0,
            distributable: 0,
            fee_amount: 0,
            player_prize_amount: 0,
            player_prize_claimed: false,
        }),
        pool.wf(),
{
    Pool {
        player_a,
        player_b,
        match_id,
        admin,
        token_mint,
        vault,
        player_prize_vault,
        total_for_a: 0,
        total_for_b: 0,
        is_open: true,
        is_settled: false,
        result: 0,
        winner_pool: 0,
        distributable: 0,
        fee_amount: 0,
        player_prize_amount: 0,
        player_prize_claimed: false,
    }
}

/// Creates the blank bet record for one (pool, bettor) pair, as the host
/// allocates it just before the bettor's first stake: no stake, no side,
/// nothing claimed.
pub fn new_bet(pool: AccountId, bettor: AccountId) -> (bet: Bet)
    ensures
        bet == (Bet { bettor, amount: 0, side: 0, pool, claimed: false }),
        bet.wf(),
{
    Bet { bettor, amount: 0, side: 0, pool, claimed: false }
}

/// True when a stake request passes every check: the pool is open, the
/// side names an outcome, and a bettor with stake already standing names
/// the side they are on.
pub open spec fn stake_accepted(pool: Pool, bet: Bet, side: u8) -> bool {
    &&& pool.is_open
    &&& valid_side(side)
    &&& bet.amount > 0 ==> bet.side == side
}

/// True when an accepted stake cannot overflow the 64-bit running totals.
/// Overflow is an unrecoverable invariant violation, not a rejected input,
/// so callers must stay below it.
pub open spec fn stake_fits(pool: Pool, bet: Bet, side: u8, amount: u64) -> bool {
    stake_accepted(pool, bet, side) ==> {
        &&& side == 1 ==> pool.total_for_a + amount <= u64::MAX
        &&& side == 2 ==> pool.total_for_b + amount <= u64::MAX
        &&& bet.amount + amount <= u64::MAX
    }
}

/// Accumulates a stake of `amount` on `side` for `bettor`.
///
/// On the first stake the bet record is bound to the bettor, this pool and
/// the requested side; afterwards the side is immutable while stake stands.
/// On success the side's running total and the bet's cumulative amount both
/// grow by exactly `amount`, nothing else changes, and the returned request
/// moves `amount` from the bettor into the pool's vault. On rejection
/// (`PoolClosed`, `InvalidSide`, `CannotSwitchSides` — if and only if the
/// matching check fails, in that order) nothing changes.
pub fn place_bet(
    pool: &mut Pool,
    bet: &mut Bet,
    bettor: AccountId,
    side: u8,
    amount: u64,
) -> (r: Result<TransferRequest, ErrorCode>)
    requires
        old(pool).wf(),
        old(bet).wf(),
        old(bet).pool == old(pool).match_id,
        old(bet).bettor == bettor,
        stake_fits(*old(pool), *old(bet), side, amount),
    ensures
        final(pool).wf(),
        old(pool).is_settled ==> final(pool).is_settled,
        !old(pool).is_open ==> !final(pool).is_open,
        final(bet).wf(),
        final(pool).total_for_a >= old(pool).total_for_a,
        final(pool).total_for_b >= old(pool).total_for_b,
        final(bet).amount >= old(bet).amount,
        !old(pool).is_open ==> r == Err::<TransferRequest, ErrorCode>(ErrorCode::PoolClosed)
            && *final(pool) == *old(pool) && *final(bet) == *old(bet),
        old(pool).is_open && valid_side(side) && old(bet).amount > 0 && old(bet).side != side
            ==> r == Err::<TransferRequest, ErrorCode>(ErrorCode::CannotSwitchSides)
            && *final(pool) == *old(pool) && *final(bet) == *old(bet),
        match r {
            Ok(t) => {
                &&& stake_accepted(*old(pool), *old(bet), side)
                &&& *final(bet) == (Bet {
                    bettor,
                    amount: (old(bet).amount + amount) as u64,
                    side,
                    pool: old(pool).match_id,
                    claimed: if old(bet).amount > 0 { old(bet).claimed } else { false },
                })
                &&& side == 1 ==> *final(pool) == (Pool {
                    total_for_a: (old(pool).total_for_a + amount) as u64,
                    ..*old(pool)
                })
                &&& side == 2 ==> *final(pool) == (Pool {
                    total_for_b: (old(pool).total_for_b + amount) as u64,
                    ..*old(pool)
                })
                &&& t == (TransferRequest { from: bettor, to: old(pool).vault, amount })
            },
            Err(e) => {
                &&& *final(pool) == *old(pool)
                &&& *final(bet) == *old(bet)
                &&& (e == ErrorCode::PoolClosed || e == ErrorCode::InvalidSide || e
                    == ErrorCode::CannotSwitchSides)
                &&& (e == ErrorCode::PoolClosed <==> !old(pool).is_open)
                &&& (e == ErrorCode::InvalidSide <==> old(pool).is_open && !valid_side(side))
                &&& (e == ErrorCode::CannotSwitchSides <==> old(pool).is_open && valid_side(side)
                    && old(bet).amount > 0 && old(bet).side != side)
            },
        },
{
    if !pool.is_open {
        return Err(ErrorCode::PoolClosed);
    }
    if !(side == 1 || side == 2) {
        return Err(ErrorCode::InvalidSide);
    }
    if bet.amount > 0 {
        if bet.side != side {
            return Err(ErrorCode::CannotSwitchSides);
        }
    } else {
        bet.side = side;
        bet.pool = pool.match_id;
        bet.bettor = bettor;
        bet.claimed = false;
    }
    if side == 1 {
        pool.total_for_a = pool.total_for_a + amount;
    } else {
        pool.total_for_b = pool.total_for_b + amount;
    }
    bet.amount = bet.amount + amount;
    Ok(TransferRequest { from: bettor, to: pool.vault, amount })
}

/// Closes betting. Requires an open pool; the only change is that
/// `is_open` becomes false, irreversibly.
pub fn close_pool(pool: &mut Pool) -> (r: Result<(), ErrorCode>)
    requires
        old(pool).wf(),
    ensures
        final(pool).wf(),
        old(pool).is_settled ==> final(pool).is_settled,
        !old(pool).is_open ==> !final(pool).is_open,
        match r {
            Ok(()) => {
                &&& old(pool).is_open
                &&& *final(pool) == (Pool { is_open: false, ..*old(pool) })
            },
            Err(e) => {
                &&& *final(pool) == *old(pool)
                &&& e == ErrorCode::PoolAlreadyClosed
                &&& !old(pool).is_open
            },
        },
{
    if !pool.is_open {
        return Err(ErrorCode::PoolAlreadyClosed);
    }
    pool.is_open = false;
    Ok(())
}

/// The winning side's total for a recorded result.
pub open spec fn winner_total(pool: Pool, result: u8) -> int
    recommends
        valid_side(result),
{
    if result == 1 {
        pool.total_for_a as int
    } else {
        pool.total_for_b as int
    }
}

/// True when a settlement request passes every check: betting is closed,
/// no settlement stands yet, the result names a side, and somebody staked
/// on it.
pub open spec fn settle_accepted(pool: Pool, result: u8) -> bool {
    &&& !pool.is_open
    &&& !pool.is_settled
    &&& valid_side(result)
    &&& winner_total(pool, result) > 0
}

/// True when the settlement arithmetic stays within the 64-bit snapshot
/// fields: the fee and prize cuts together never exceed the staked total
/// (an excess is an unrecoverable invariant violation, not a rejected
/// input), and on the committing path the staked total itself fits the
/// fields it is split into.
pub open spec fn settle_fits(pool: Pool, result: u8, fee_bps: u16, player_share_bps: u16) -> bool {
    let total = pool.total_for_a + pool.total_for_b;
    &&& (!pool.is_open && !pool.is_settled && valid_side(result)) ==> bps_cut(total, fee_bps as int)
        + bps_cut(total, player_share_bps as int) <= total
    &&& settle_accepted(pool, result) ==> total <= u64::MAX
}

/// Settles a closed pool against the recorded `result`, exactly once.
///
/// The staked total is split with truncating basis-point arithmetic into
/// `fee_amount = total * fee_bps / 10_000`, `player_prize_amount = total *
/// player_share_bps / 10_000`, and the residual `distributable`, which
/// absorbs both truncation remainders, so the split conserves the total
/// exactly. On success the snapshot and the result are committed, the
/// totals stand untouched, and the two returned requests move the fee from
/// the vault to `fee_treasury` and the prize from the vault to the pool's
/// prize vault, in that order. On rejection (`PoolAlreadySettled`,
/// `PoolStillOpen`, `InvalidResult`, `NoBetsOnWinner` — if and only if the
/// matching check fails, in that order) nothing changes.
pub fn settle_pool(
    pool: &mut Pool,
    fee_treasury: AccountId,
    result: u8,
    fee_bps: u16,
    player_share_bps: u16,
) -> (r: Result<(TransferRequest, TransferRequest), ErrorCode>)
    requires
        old(pool).wf(),
        settle_fits(*old(pool), result, fee_bps, player_share_bps),
    ensures
        final(pool).wf(),
        old(pool).is_settled ==> final(pool).is_settled,
        !old(pool).is_open ==> !final(pool).is_open,
        old(pool).is_settled ==> r == Err::<(TransferRequest, TransferRequest), ErrorCode>(
            ErrorCode::PoolAlreadySettled,
        ) && *final(pool) == *old(pool),
        match r {
            Ok(transfers) => {
                &&& settle_accepted(*old(pool), result)
                &&& *final(pool) == (Pool {
                    is_settled: true,
                    result,
                    winner_pool: winner_total(*old(pool), result) as u64,
                    fee_amount: bps_cut(
                        old(pool).total_for_a + old(pool).total_for_b,
                        fee_bps as int,
                    ) as u64,
                    player_prize_amount: bps_cut(
                        old(pool).total_for_a + old(pool).total_for_b,
                        player_share_bps as int,
                    ) as u64,
                    distributable: (old(pool).total_for_a + old(pool).total_for_b - bps_cut(
                        old(pool).total_for_a + old(pool).total_for_b,
                        fee_bps as int,
                    ) - bps_cut(
                        old(pool).total_for_a + old(pool).total_for_b,
                        player_share_bps as int,
                    )) as u64,
                    ..*old(pool)
                })
                &&& final(pool).fee_amount + final(pool).player_prize_amount
                    + final(pool).distributable == old(pool).total_for_a + old(pool).total_for_b
                &&& transfers.0 == (TransferRequest {
                    from: old(pool).vault,
                    to: fee_treasury,
                    amount: final(pool).fee_amount,
                })
                &&& transfers.1 == (TransferRequest {
                    from: old(pool).vault,
                    to: old(pool).player_prize_vault,
                    amount: final(pool).player_prize_amount,
                })
            },
            Err(e) => {
                &&& *final(pool) == *old(pool)
                &&& (e == ErrorCode::PoolAlreadySettled || e == ErrorCode::PoolStillOpen || e
                    == ErrorCode::InvalidResult || e == ErrorCode::NoBetsOnWinner)
                &&& (e == ErrorCode::PoolAlreadySettled <==> old(pool).is_settled)
                &&& (e == ErrorCode::PoolStillOpen <==> old(pool).is_open)
                &&& (e == ErrorCode::InvalidResult <==> !old(pool).is_open && !old(
                    pool,
                ).is_settled && !valid_side(result))
                &&& (e == ErrorCode::NoBetsOnWinner <==> !old(pool).is_open && !old(
                    pool,
                ).is_settled && valid_side(result) && winner_total(*old(pool), result) == 0)
            },
        },
{
    if pool.is_settled {
        return Err(ErrorCode::PoolAlreadySettled);
    }
    if pool.is_open {
        return Err(ErrorCode::PoolStillOpen);
    }
    if !(result == 1 || result == 2) {
        return Err(ErrorCode::InvalidResult);
    }
    let total_for_a = pool.total_for_a;
    let total_for_b = pool.total_for_b;
    let total_pool: u128 = (total_for_a as u128) + (total_for_b as u128);
    proof {
        lemma_bps_cut_bounds(total_pool as int, fee_bps as int);
        lemma_bps_cut_bounds(total_pool as int, player_share_bps as int);
        assert(total_pool * (fee_bps as u128) <= u128::MAX) by (nonlinear_arith)
            requires
                total_pool <= 0xffff_ffff_ffff_ffff_f,
                fee_bps <= 0xffff,
        ;
        assert(total_pool * (player_share_bps as u128) <= u128::MAX) by (nonlinear_arith)
            requires
                total_pool <= 0xffff_ffff_ffff_ffff_f,
                player_share_bps <= 0xffff,
        ;
    }
    let fee_amount: u128 = total_pool * (fee_bps as u128) / (BPS_DENOMINATOR as u128);
    let player_prize: u128 = total_pool * (player_share_bps as u128) / (BPS_DENOMINATOR as u128);
    let distributable: u128 = total_pool - fee_amount - player_prize;
    let winner_pool: u64 = if result == 1 {
        total_for_a
    } else {
        total_for_b
    };
    if winner_pool == 0 {
        return Err(ErrorCode::NoBetsOnWinner);
    }
    let fee_amount_u64: u64 = fee_amount as u64;
    let player_prize_u64: u64 = player_prize as u64;
    let distributable_u64: u64 = distributable as u64;
    pool.result = result;
    pool.fee_amount = fee_amount_u64;
    pool.player_prize_amount = player_prize_u64;
    pool.distributable = distributable_u64;
    pool.winner_pool = winner_pool;
    pool.is_settled = true;
    Ok(
        (
            TransferRequest { from: pool.vault, to: fee_treasury, amount: fee_amount_u64 },
            TransferRequest {
                from: pool.vault,
                to: pool.player_prize_vault,
                amount: player_prize_u64,
            },
        ),
    )
}

/// True when a spectator claim passes every check: the pool is settled,
/// the bet is not yet paid out, and it backed the winning side.
pub open spec fn spectator_claim_accepted(pool: Pool, bet: Bet) -> bool {
    &&& pool.is_settled
    &&& !bet.claimed
    &&& bet.side == pool.result
}

/// Pays a winning spectator their pro-rata share of the distributable pot:
/// `floor(bet.amount * distributable / winner_pool)`, at most once.
///
/// On success the bet is marked claimed — its only change — and the
/// returned request moves the payout from the pool's vault to the bettor.
/// On rejection (`PoolNotSettled`, `AlreadyClaimed`, `NotWinner`,
/// `NothingToClaim` — if and only if the matching check fails, in that
/// order) nothing changes; in particular a second claim after a successful
/// one fails with `AlreadyClaimed` before any payout is computed.
///
/// A winning bet's stake is one summand of `winner_pool`, so a caller
/// keeping honest accounts always has `bet.amount <= pool.winner_pool`;
/// that bound is what keeps the payout within the distributable pot and
/// within 64 bits.
pub fn claim_spectator_winnings(pool: &Pool, bet: &mut Bet) -> (r: Result<
    TransferRequest,
    ErrorCode,
>)
    requires
        pool.wf(),
        old(bet).wf(),
        old(bet).pool == pool.match_id,
        spectator_claim_accepted(*pool, *old(bet)) ==> old(bet).amount <= pool.winner_pool,
    ensures
        final(bet).wf(),
        pool.is_settled && old(bet).claimed ==> r == Err::<TransferRequest, ErrorCode>(
            ErrorCode::AlreadyClaimed,
        ) && *final(bet) == *old(bet),
        match r {
            Ok(t) => {
                &&& spectator_claim_accepted(*pool, *old(bet))
                &&& *final(bet) == (Bet { claimed: true, ..*old(bet) })
                &&& t == (TransferRequest {
                    from: pool.vault,
                    to: old(bet).bettor,
                    amount: payout_share(
                        old(bet).amount as int,
                        pool.distributable as int,
                        pool.winner_pool as int,
                    ) as u64,
                })
                &&& t.amount == payout_share(
                    old(bet).amount as int,
                    pool.distributable as int,
                    pool.winner_pool as int,
                )
                &&& 0 < t.amount <= pool.distributable
            },
            Err(e) => {
                &&& *final(bet) == *old(bet)
                &&& (e == ErrorCode::PoolNotSettled || e == ErrorCode::AlreadyClaimed || e
                    == ErrorCode::NotWinner || e == ErrorCode::NothingToClaim)
                &&& (e == ErrorCode::PoolNotSettled <==> !pool.is_settled)
                &&& (e == ErrorCode::AlreadyClaimed <==> pool.is_settled && old(bet).claimed)
                &&& (e == ErrorCode::NotWinner <==> pool.is_settled && !old(bet).claimed && old(
                    bet,
                ).side != pool.result)
                &&& (e == ErrorCode::NothingToClaim <==> spectator_claim_accepted(*pool, *old(bet))
                    && payout_share(
                    old(bet).amount as int,
                    pool.distributable as int,
                    pool.winner_pool as int,
                ) == 0)
            },
        },
{
    if !pool.is_settled {
        return Err(ErrorCode::PoolNotSettled);
    }
    if bet.claimed {
        return Err(ErrorCode::AlreadyClaimed);
    }
    if bet.side != pool.result {
        return Err(ErrorCode::NotWinner);
    }
    proof {
        assert((bet.amount as u128) * (pool.distributable as u128) <= u128::MAX)
            by (nonlinear_arith)
            requires
                bet.amount <= 0xffff_ffff_ffff_ffff,
                pool.distributable <= 0xffff_ffff_ffff_ffff,
        ;
        lemma_payout_le_distributable(
            bet.amount as int,
            pool.distributable as int,
            pool.winner_pool as int,
        );
    }
    let payout_wide: u128 = (bet.amount as u128) * (pool.distributable as u128) / (
    pool.winner_pool as u128);
    let payout: u64 = payout_wide as u64;
    if payout == 0 {
        return Err(ErrorCode::NothingToClaim);
    }
    bet.claimed = true;
    Ok(TransferRequest { from: pool.vault, to: bet.bettor, amount: payout })
}

/// Payout proportionality: on a settled pool, two claimable winning bets
/// whose stakes together do not exceed the winning pool's total — as any
/// two distinct bets counted into it are — draw payouts of exactly
/// `floor(amount * distributable / winner_pool)` each, and together never
/// more than the distributable pot.
pub proof fn lemma_two_winning_claims_never_overdraw(pool: Pool, bet1: Bet, bet2: Bet)
    requires
        pool.wf(),
        spectator_claim_accepted(pool, bet1),
        spectator_claim_accepted(pool, bet2),
        bet1.amount + bet2.amount <= pool.winner_pool,
    ensures
        payout_share(bet1.amount as int, pool.distributable as int, pool.winner_pool as int)
            + payout_share(bet2.amount as int, pool.distributable as int, pool.winner_pool as int)
            <= pool.distributable,
{
    lemma_payout_sum_le_distributable(
        bet1.amount as int,
        bet2.amount as int,
        pool.distributable as int,
        pool.winner_pool as int,
    );
}

/// Pays the winning match participant the carved-out prize, at most once.
///
/// On success the pool's prize-claim flag is set — its only change — and
/// the returned request moves `player_prize_amount` from the prize vault to
/// the claimant. On rejection (`PoolNotSettled`, `NotWinningPlayer`,
/// `AlreadyClaimed` — if and only if the matching check fails, in that
/// order) nothing changes. A settled pool always carries a result of 1 or
/// 2, so the defensive `InvalidResult` arm is never taken.
pub fn claim_player_prize(pool: &mut Pool, player: AccountId) -> (r: Result<
    TransferRequest,
    ErrorCode,
>)
    requires
        old(pool).wf(),
    ensures
        final(pool).wf(),
        old(pool).is_settled ==> final(pool).is_settled,
        !old(pool).is_open ==> !final(pool).is_open,
        old(pool).is_settled && player == old(pool).winning_player() && old(
            pool,
        ).player_prize_claimed ==> r == Err::<TransferRequest, ErrorCode>(
            ErrorCode::AlreadyClaimed,
        ) && *final(pool) == *old(pool),
        match r {
            Ok(t) => {
                &&& old(pool).is_settled
                &&& player == old(pool).winning_player()
                &&& !old(pool).player_prize_claimed
                &&& *final(pool) == (Pool { player_prize_claimed: true, ..*old(pool) })
                &&& t == (TransferRequest {
                    from: old(pool).player_prize_vault,
                    to: player,
                    amount: old(pool).player_prize_amount,
                })
            },
            Err(e) => {
                &&& *final(pool) == *old(pool)
                &&& (e == ErrorCode::PoolNotSettled || e == ErrorCode::NotWinningPlayer || e
                    == ErrorCode::AlreadyClaimed)
                &&& (e == ErrorCode::PoolNotSettled <==> !old(pool).is_settled)
                &&& (e == ErrorCode::NotWinningPlayer <==> old(pool).is_settled && player != old(
                    pool,
                ).winning_player())
                &&& (e == ErrorCode::AlreadyClaimed <==> old(pool).is_settled && player == old(
                    pool,
                ).winning_player() && old(pool).player_prize_claimed)
            },
        },
{
    if !pool.is_settled {
        return Err(ErrorCode::PoolNotSettled);
    }
    if pool.result == 1 {
        if player != pool.player_a {
            return Err(ErrorCode::NotWinningPlayer);
        }
    } else if pool.result == 2 {
        if player != pool.player_b {
            return Err(ErrorCode::NotWinningPlayer);
        }
    } else {
        return Err(ErrorCode::InvalidResult);
    }
    if pool.player_prize_claimed {
        return Err(ErrorCode::AlreadyClaimed);
    }
    pool.player_prize_claimed = true;
    Ok(
        TransferRequest {
            from: pool.player_prize_vault,
            to: player,
            amount: pool.player_prize_amount,
        },
    )
}

} // verus!
