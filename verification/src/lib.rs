//! A two-sided pari-mutuel betting pool.
//!
//! Spectators stake on one of two outcomes of a match while the pool is
//! open; an authority closes it and settles it against the actual outcome,
//! splitting the collected stake into a protocol fee, a prize for the
//! winning match participant, and a distributable pot paid out pro rata to
//! the spectators who backed the winner.
//!
//! The library holds the pool's accounting and settlement state machine:
//! how stakes accumulate, how a closed pool is settled into its
//! fee/prize/distributable snapshot, how individual payouts are computed
//! from that snapshot, and the claim bookkeeping that pays each party at
//! most once. Value movement itself is external: every operation that owes
//! a movement returns a [`states::TransferRequest`] naming the holding
//! accounts and the amount, and the host performs it, committing the new
//! ledger state only if the transfer succeeds.

pub mod errors;
pub mod states;
pub mod math;
pub mod ops;

pub use errors::ErrorCode;
pub use states::{AccountId, Bet, Pool, TransferRequest};
