//! The persisted entities: the per-match [`Pool`], the per-bettor [`Bet`],
//! and the [`TransferRequest`] an operation hands to the host's transfer
//! service.
//!
//! A pool moves open -> closed -> settled and never back; the settlement
//! snapshot is written exactly once, and while it is valid it conserves the
//! staked total exactly: `fee_amount + player_prize_amount + distributable
//! == total_for_a + total_for_b`. Both facts are part of [`Pool::wf`],
//! which every operation requires and preserves.

use vstd::prelude::*;

verus! {

/// An opaque identity for a party or a holding account: a match, a player,
/// an admin, a bettor, a vault or a treasury. The library only compares
/// identities; verifying that a caller owns one is the host's concern.
#[derive(Clone, Copy, Debug, PartialEq, Eq, Hash, Structural)]
pub struct AccountId(pub u64);

/// One value movement owed to the host's transfer service: move `amount`
/// units from the holding account `from` to the holding account `to`,
/// atomically. The host commits the ledger state an operation produced
/// only if this transfer succeeds.
#[derive(Clone, Copy, Debug, PartialEq, Eq, Structural)]
pub struct TransferRequest {
    pub from: AccountId,
    pub to: AccountId,
    pub amount: u64,
}

/// True for the two outcome selectors a stake or a match result may name:
/// side 1 backs player A, side 2 backs player B.
pub open spec fn valid_side(side: u8) -> bool {
    side == 1 || side == 2
}

/// The per-match aggregate: identities, running per-side totals, status
/// flags, and — once settled — the write-once settlement snapshot.
#[derive(Clone, Copy, Debug, PartialEq, Eq, Structural)]
pub struct Pool {
    /// The match participant backed by side 1.
    pub player_a: AccountId,
    /// The match participant backed by side 2.
    pub player_b: AccountId,
    /// The match this pool belongs to; bets reference the pool through it.
    pub match_id: AccountId,
    /// The settlement authority.
    pub admin: AccountId,
    /// The asset every stake and payout is denominated in.
    pub token_mint: AccountId,
    /// Holds all spectator stake until settlement and pays winners from it.
    pub vault: AccountId,
    /// Holds the carved-out participant prize until it is claimed.
    pub player_prize_vault: AccountId,
    /// Cumulative stake on side 1; never decreases while the pool is open.
    pub total_for_a: u64,
    /// Cumulative stake on side 2; never decreases while the pool is open.
    pub total_for_b: u64,
    /// Betting is allowed while true; cleared once, never set again.
    pub is_open: bool,
    /// The settlement snapshot is valid iff true; set once, never cleared.
    pub is_settled: bool,
    /// The recorded outcome: 0 until settlement, then 1 or 2.
    pub result: u8,
    /// Snapshot: the winning side's total at settlement time.
    pub winner_pool: u64,
    /// Snapshot: the aggregate owed to winning spectators.
    pub distributable: u64,
    /// Snapshot: the protocol fee carved out of the total.
    pub fee_amount: u64,
    /// Snapshot: the prize carved out for the winning participant.
    pub player_prize_amount: u64,
    /// True once the winning participant's prize has been paid out.
    pub player_prize_claimed: bool,
}

impl Pool {
    /// Well-formedness. Established by pool creation and preserved by every
    /// operation: the pool is never simultaneously open and settled; while
    /// unsettled the snapshot is blank, the result unset and the prize
    /// unclaimed; once settled the result names a side, the winning side's
    /// total is positive and recorded, and the snapshot conserves the
    /// staked total exactly.
    pub open spec fn wf(self) -> bool {
        &&& !(self.is_open && self.is_settled)
        &&& !self.is_settled ==> {
            &&& self.result == 0
            &&& self.winner_pool == 0
            &&& self.distributable == 0
            &&& self.fee_amount == 0
            &&& self.player_prize_amount == 0
            &&& !self.player_prize_claimed
        }
        &&& self.is_settled ==> {
            &&& valid_side(self.result)
            &&& self.winner_pool > 0
            &&& self.winner_pool == (if self.result == 1 {
                self.total_for_a
            } else {
                self.total_for_b
            })
            &&& self.fee_amount + self.player_prize_amount + self.distributable
                == self.total_for_a + self.total_for_b
        }
    }

    /// The match participant entitled to the prize of a settled pool.
    pub open spec fn winning_player(self) -> AccountId
        recommends
            self.is_settled,
    {
        if self.result == 1 {
            self.player_a
        } else {
            self.player_b
        }
    }
}

/// One bettor's cumulative stake on one side of one pool, plus its claim
/// flag. Created lazily on the first stake; `side` is fixed then and
/// immutable while any stake stands; `claimed` goes false -> true once.
#[derive(Clone, Copy, Debug, PartialEq, Eq, Structural)]
pub struct Bet {
    /// The bettor this record belongs to.
    pub bettor: AccountId,
    /// Cumulative stake; never decreases.
    pub amount: u64,
    /// The side backed: 1 for player A, 2 for player B; 0 while no stake
    /// has been placed yet.
    pub side: u8,
    /// The owning pool, referenced by its match.
    pub pool: AccountId,
    /// True once winnings have been paid out.
    pub claimed: bool,
}

impl Bet {
    /// Well-formedness: while any stake stands, the recorded side names
    /// one of the two outcomes.
    pub open spec fn wf(self) -> bool {
        self.amount > 0 ==> valid_side(self.side)
    }
}

} // verus!
