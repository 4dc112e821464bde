use prediction_pool::errors::ErrorCode;
use prediction_pool::ops::{
    claim_player_prize, claim_spectator_winnings, close_pool, create_pool, new_bet, place_bet,
    settle_pool,
};
use prediction_pool::states::{AccountId, Bet, Pool, TransferRequest};

const PLAYER_A: AccountId = AccountId(1);
const PLAYER_B: AccountId = AccountId(2);
const MATCH_ID: AccountId = AccountId(3);
const ADMIN: AccountId = AccountId(4);
const MINT: AccountId = AccountId(5);
const VAULT: AccountId = AccountId(6);
const PRIZE_VAULT: AccountId = AccountId(7);
const TREASURY: AccountId = AccountId(8);
const BETTOR_X: AccountId = AccountId(10);
const BETTOR_Y: AccountId = AccountId(11);

fn fresh_pool() -> Pool {
    create_pool(PLAYER_A, PLAYER_B, MATCH_ID, ADMIN, MINT, VAULT, PRIZE_VAULT)
}

/// Pool after the reference history: X stakes 600 on side 1, Y stakes 400
/// on side 2, betting closed.
fn closed_pool_600_400() -> (Pool, Bet, Bet) {
    let mut pool = fresh_pool();
    let mut bet_x = new_bet(MATCH_ID, BETTOR_X);
    let mut bet_y = new_bet(MATCH_ID, BETTOR_Y);
    place_bet(&mut pool, &mut bet_x, BETTOR_X, 1, 600).unwrap();
    place_bet(&mut pool, &mut bet_y, BETTOR_Y, 2, 400).unwrap();
    close_pool(&mut pool).unwrap();
    (pool, bet_x, bet_y)
}

#[test]
fn full_flow_settles_and_pays_the_sole_winner() {
    let (mut pool, mut bet_x, mut bet_y) = closed_pool_600_400();
    assert_eq!(pool.total_for_a, 600);
    assert_eq!(pool.total_for_b, 400);

    let (fee_t, prize_t) = settle_pool(&mut pool, TREASURY, 1, 200, 1000).unwrap();
    assert_eq!(pool.fee_amount, 20);
    assert_eq!(pool.player_prize_amount, 100);
    assert_eq!(pool.distributable, 880);
    assert_eq!(pool.winner_pool, 600);
    assert!(pool.is_settled);
    assert_eq!(pool.result, 1);
    assert_eq!(
        fee_t,
        TransferRequest { from: VAULT, to: TREASURY, amount: 20 }
    );
    assert_eq!(
        prize_t,
        TransferRequest { from: VAULT, to: PRIZE_VAULT, amount: 100 }
    );

    let payout = claim_spectator_winnings(&pool, &mut bet_x).unwrap();
    assert_eq!(
        payout,
        TransferRequest { from: VAULT, to: BETTOR_X, amount: 880 }
    );
    assert!(bet_x.claimed);

    assert_eq!(
        claim_spectator_winnings(&pool, &mut bet_y),
        Err(ErrorCode::NotWinner)
    );
    assert!(!bet_y.claimed);
}

#[test]
fn settlement_conserves_the_staked_total_exactly() {
    let mut pool = fresh_pool();
    let mut bet_x = new_bet(MATCH_ID, BETTOR_X);
    let mut bet_y = new_bet(MATCH_ID, BETTOR_Y);
    place_bet(&mut pool, &mut bet_x, BETTOR_X, 1, 333).unwrap();
    place_bet(&mut pool, &mut bet_y, BETTOR_Y, 2, 666).unwrap();
    close_pool(&mut pool).unwrap();
    // 999 * 250 / 10_000 and 999 * 333 / 10_000 both truncate; the
    // residual absorbs the remainders.
    settle_pool(&mut pool, TREASURY, 2, 250, 333).unwrap();
    assert_eq!(pool.fee_amount, 24);
    assert_eq!(pool.player_prize_amount, 33);
    assert_eq!(pool.distributable, 942);
    assert_eq!(
        pool.fee_amount + pool.player_prize_amount + pool.distributable,
        pool.total_for_a + pool.total_for_b
    );
}

#[test]
fn settle_with_no_bets_on_winner_is_rejected() {
    let mut pool = fresh_pool();
    let mut bet_x = new_bet(MATCH_ID, BETTOR_X);
    place_bet(&mut pool, &mut bet_x, BETTOR_X, 1, 600).unwrap();
    close_pool(&mut pool).unwrap();
    assert_eq!(pool.total_for_b, 0);
    let before = pool;
    assert_eq!(
        settle_pool(&mut pool, TREASURY, 2, 200, 1000),
        Err(ErrorCode::NoBetsOnWinner)
    );
    assert!(!pool.is_settled);
    assert_eq!(pool, before);
}

#[test]
fn second_spectator_claim_is_rejected() {
    let (mut pool, mut bet_x, _) = closed_pool_600_400();
    settle_pool(&mut pool, TREASURY, 1, 200, 1000).unwrap();
    let first = claim_spectator_winnings(&pool, &mut bet_x);
    assert!(first.is_ok());
    let bet_after_first = bet_x;
    assert_eq!(
        claim_spectator_winnings(&pool, &mut bet_x),
        Err(ErrorCode::AlreadyClaimed)
    );
    assert_eq!(bet_x, bet_after_first);
}

#[test]
fn stake_on_closed_pool_is_rejected_and_totals_stand() {
    let (mut pool, mut bet_x, _) = closed_pool_600_400();
    let pool_before = pool;
    let bet_before = bet_x;
    assert_eq!(
        place_bet(&mut pool, &mut bet_x, BETTOR_X, 1, 50),
        Err(ErrorCode::PoolClosed)
    );
    assert_eq!(pool, pool_before);
    assert_eq!(bet_x, bet_before);
}

#[test]
fn switching_sides_is_rejected_and_nothing_changes() {
    let mut pool = fresh_pool();
    let mut bet_x = new_bet(MATCH_ID, BETTOR_X);
    place_bet(&mut pool, &mut bet_x, BETTOR_X, 1, 600).unwrap();
    let pool_before = pool;
    let bet_before = bet_x;
    assert_eq!(
        place_bet(&mut pool, &mut bet_x, BETTOR_X, 2, 100),
        Err(ErrorCode::CannotSwitchSides)
    );
    assert_eq!(pool, pool_before);
    assert_eq!(bet_x, bet_before);
    assert_eq!(bet_x.side, 1);
}

#[test]
fn repeated_stakes_accumulate_on_the_fixed_side() {
    let mut pool = fresh_pool();
    let mut bet_x = new_bet(MATCH_ID, BETTOR_X);
    place_bet(&mut pool, &mut bet_x, BETTOR_X, 2, 100).unwrap();
    place_bet(&mut pool, &mut bet_x, BETTOR_X, 2, 250).unwrap();
    assert_eq!(bet_x.amount, 350);
    assert_eq!(bet_x.side, 2);
    assert_eq!(pool.total_for_b, 350);
    assert_eq!(pool.total_for_a, 0);
}

#[test]
fn invalid_side_is_rejected() {
    let mut pool = fresh_pool();
    let mut bet_x = new_bet(MATCH_ID, BETTOR_X);
    assert_eq!(
        place_bet(&mut pool, &mut bet_x, BETTOR_X, 3, 100),
        Err(ErrorCode::InvalidSide)
    );
    assert_eq!(
        place_bet(&mut pool, &mut bet_x, BETTOR_X, 0, 100),
        Err(ErrorCode::InvalidSide)
    );
    assert_eq!(pool.total_for_a, 0);
    assert_eq!(pool.total_for_b, 0);
    assert_eq!(bet_x.amount, 0);
}

#[test]
fn closing_twice_is_rejected() {
    let mut pool = fresh_pool();
    close_pool(&mut pool).unwrap();
    assert_eq!(close_pool(&mut pool), Err(ErrorCode::PoolAlreadyClosed));
    assert!(!pool.is_open);
}

#[test]
fn settling_an_open_pool_is_rejected() {
    let mut pool = fresh_pool();
    let mut bet_x = new_bet(MATCH_ID, BETTOR_X);
    place_bet(&mut pool, &mut bet_x, BETTOR_X, 1, 600).unwrap();
    let before = pool;
    assert_eq!(
        settle_pool(&mut pool, TREASURY, 1, 200, 1000),
        Err(ErrorCode::PoolStillOpen)
    );
    assert_eq!(pool, before);
}

#[test]
fn settling_with_an_invalid_result_is_rejected() {
    let (mut pool, _, _) = closed_pool_600_400();
    let before = pool;
    assert_eq!(
        settle_pool(&mut pool, TREASURY, 0, 200, 1000),
        Err(ErrorCode::InvalidResult)
    );
    assert_eq!(
        settle_pool(&mut pool, TREASURY, 3, 200, 1000),
        Err(ErrorCode::InvalidResult)
    );
    assert_eq!(pool, before);
}

#[test]
fn settling_twice_is_rejected_and_the_snapshot_stands() {
    let (mut pool, _, _) = closed_pool_600_400();
    settle_pool(&mut pool, TREASURY, 1, 200, 1000).unwrap();
    let snapshot = pool;
    assert_eq!(
        settle_pool(&mut pool, TREASURY, 2, 9999, 1),
        Err(ErrorCode::PoolAlreadySettled)
    );
    assert_eq!(pool, snapshot);
}

#[test]
fn claims_before_settlement_are_rejected() {
    let (mut pool, mut bet_x, _) = closed_pool_600_400();
    assert_eq!(
        claim_spectator_winnings(&pool, &mut bet_x),
        Err(ErrorCode::PoolNotSettled)
    );
    assert_eq!(
        claim_player_prize(&mut pool, PLAYER_A),
        Err(ErrorCode::PoolNotSettled)
    );
    assert!(!bet_x.claimed);
    assert!(!pool.player_prize_claimed);
}

#[test]
fn dust_stake_resolves_to_nothing_to_claim() {
    let mut pool = fresh_pool();
    let mut bet_x = new_bet(MATCH_ID, BETTOR_X);
    let mut bet_y = new_bet(MATCH_ID, BETTOR_Y);
    place_bet(&mut pool, &mut bet_x, BETTOR_X, 1, 999).unwrap();
    place_bet(&mut pool, &mut bet_y, BETTOR_Y, 1, 1).unwrap();
    close_pool(&mut pool).unwrap();
    settle_pool(&mut pool, TREASURY, 1, 200, 1000).unwrap();
    // payout = floor(1 * 880 / 1000) = 0
    assert_eq!(
        claim_spectator_winnings(&pool, &mut bet_y),
        Err(ErrorCode::NothingToClaim)
    );
    assert!(!bet_y.claimed);
}

#[test]
fn payouts_are_proportional_and_never_overdraw() {
    let mut pool = fresh_pool();
    let mut bet_x = new_bet(MATCH_ID, BETTOR_X);
    let mut bet_y = new_bet(MATCH_ID, BETTOR_Y);
    place_bet(&mut pool, &mut bet_x, BETTOR_X, 1, 600).unwrap();
    place_bet(&mut pool, &mut bet_y, BETTOR_Y, 1, 400).unwrap();
    close_pool(&mut pool).unwrap();
    settle_pool(&mut pool, TREASURY, 1, 200, 1000).unwrap();
    assert_eq!(pool.winner_pool, 1000);
    assert_eq!(pool.distributable, 880);
    let p1 = claim_spectator_winnings(&pool, &mut bet_x).unwrap().amount;
    let p2 = claim_spectator_winnings(&pool, &mut bet_y).unwrap().amount;
    // floor(600 * 880 / 1000) and floor(400 * 880 / 1000)
    assert_eq!(p1, 528);
    assert_eq!(p2, 352);
    assert!(p1 + p2 <= pool.distributable);
}

#[test]
fn player_prize_goes_to_the_winning_player_once() {
    let (mut pool, _, _) = closed_pool_600_400();
    settle_pool(&mut pool, TREASURY, 2, 200, 1000).unwrap();
    assert_eq!(
        claim_player_prize(&mut pool, PLAYER_A),
        Err(ErrorCode::NotWinningPlayer)
    );
    assert!(!pool.player_prize_claimed);
    let prize = claim_player_prize(&mut pool, PLAYER_B).unwrap();
    assert_eq!(
        prize,
        TransferRequest { from: PRIZE_VAULT, to: PLAYER_B, amount: 100 }
    );
    assert!(pool.player_prize_claimed);
    assert_eq!(
        claim_player_prize(&mut pool, PLAYER_B),
        Err(ErrorCode::AlreadyClaimed)
    );
}

#[test]
fn stake_transfer_request_names_bettor_and_vault() {
    let mut pool = fresh_pool();
    let mut bet_x = new_bet(MATCH_ID, BETTOR_X);
    let t = place_bet(&mut pool, &mut bet_x, BETTOR_X, 1, 600).unwrap();
    assert_eq!(
        t,
        TransferRequest { from: BETTOR_X, to: VAULT, amount: 600 }
    );
}

#[test]
fn a_fresh_pool_is_open_blank_and_unsettled() {
    let pool = fresh_pool();
    assert!(pool.is_open);
    assert!(!pool.is_settled);
    assert_eq!(pool.result, 0);
    assert_eq!(pool.total_for_a, 0);
    assert_eq!(pool.total_for_b, 0);
    assert_eq!(pool.fee_amount, 0);
    assert_eq!(pool.player_prize_amount, 0);
    assert_eq!(pool.distributable, 0);
    assert_eq!(pool.winner_pool, 0);
    assert!(!pool.player_prize_claimed);
    assert_eq!(pool.vault, VAULT);
    assert_eq!(pool.player_prize_vault, PRIZE_VAULT);
}
