//! The error taxonomy shared by every pool operation.
//!
//! Each variant names exactly one rejected precondition; every operation's
//! contract states, if and only if, on which inputs each variant is
//! returned. A rejected operation leaves all state unchanged.

use vstd::prelude::*;

verus! {

/// Why a pool operation was rejected.
#[derive(Clone, Copy, Debug, PartialEq, Eq, Structural)]
pub enum ErrorCode {
    /// A stake was attempted while the pool is not open.
    PoolClosed,
    /// The requested side is neither 1 nor 2.
    InvalidSide,
    /// A later stake named a different side than the bettor's existing bet.
    CannotSwitchSides,
    /// A close was attempted on a pool that is already closed.
    PoolAlreadyClosed,
    /// The recorded match result is neither 1 nor 2.
    InvalidResult,
    /// Settlement was attempted while betting is still open.
    PoolStillOpen,
    /// Settlement was attempted on an already-settled pool.
    PoolAlreadySettled,
    /// Settlement was attempted but nobody staked on the winning side.
    NoBetsOnWinner,
    /// The prize claimant is not the winning match participant.
    NotWinningPlayer,
    /// A claim was attempted before the pool was settled.
    PoolNotSettled,
    /// The claiming bettor did not stake on the winning side.
    NotWinner,
    /// The claim was already paid out once.
    AlreadyClaimed,
    /// The claim resolves to a zero payout.
    NothingToClaim,
}

} // verus!
