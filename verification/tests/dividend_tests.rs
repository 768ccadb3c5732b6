//! Dividend distribution: end-of-round claims, proportionality, precision
//! and the non-decrementing pool model.

use fomolt3d::constants::{
    DEFAULT_BASE_PRICE_LAMPORTS, DEFAULT_DIVIDEND_BPS, DEFAULT_MAX_TIMER_SECS,
    DEFAULT_NEXT_ROUND_BPS, DEFAULT_PRICE_INCREMENT_LAMPORTS, DEFAULT_PROTOCOL_FEE_BPS,
    DEFAULT_REFERRAL_BONUS_BPS, DEFAULT_TIMER_EXTENSION_SECS, DEFAULT_WINNER_BPS,
};
use fomolt3d::engine::BuyOutcome;
use fomolt3d::errors::FomoltError;
use fomolt3d::ledger::GameLedger;
use fomolt3d::math;
use fomolt3d::state::{AccountId, GlobalConfig, PlayerState};

fn test_config() -> GlobalConfig {
    GlobalConfig {
        admin: AccountId::from_word(9001),
        base_price_lamports: DEFAULT_BASE_PRICE_LAMPORTS,
        price_increment_lamports: DEFAULT_PRICE_INCREMENT_LAMPORTS,
        timer_extension_secs: DEFAULT_TIMER_EXTENSION_SECS,
        max_timer_secs: DEFAULT_MAX_TIMER_SECS,
        winner_bps: DEFAULT_WINNER_BPS,
        dividend_bps: DEFAULT_DIVIDEND_BPS,
        next_round_bps: DEFAULT_NEXT_ROUND_BPS,
        protocol_fee_bps: DEFAULT_PROTOCOL_FEE_BPS,
        referral_bonus_bps: DEFAULT_REFERRAL_BONUS_BPS,
        protocol_wallet: AccountId::from_word(9000),
    }
}

fn setup_game() -> GameLedger {
    GameLedger::first_round(&test_config(), 1000).unwrap()
}

fn buy_as(l: &mut GameLedger, who: u64, keys: u64, now: i64) -> BuyOutcome {
    let id = AccountId::from_word(who);
    let idx = l.find_player(id);
    l.buy_at(idx, None, id, keys, false, now).unwrap()
}

fn claim_as(l: &mut GameLedger, who: u64, now: i64) -> Result<u64, FomoltError> {
    let idx = l.find_player(AccountId::from_word(who)).expect("player record");
    l.claim_at(idx, now).map(|c| c.total_lamports)
}

fn player_of(l: &GameLedger, who: u64) -> PlayerState {
    l.players[l.find_player(AccountId::from_word(who)).expect("player record")]
}

#[test]
fn test_two_players_proportional_dividends() {
    let mut l = setup_game();

    buy_as(&mut l, 1, 10, 1000);
    buy_as(&mut l, 2, 10, 1000);

    assert!(l.game.total_dividend_pool > 0, "Dividend pool should have increased");

    let end = l.game.timer_end;

    // P1 claims — proportional share of the dividend pool
    let payout = claim_as(&mut l, 1, end + 1).unwrap();
    assert!(payout > 0, "P1 should receive dividends at round end");

    // After claim: current_round = 0 and keys = 0
    let ps1 = player_of(&l, 1);
    assert_eq!(ps1.current_round, 0, "current_round should be 0 after claim");
    assert_eq!(ps1.keys, 0, "keys should be 0 after claim");
}

#[test]
fn test_claim_dividends_at_round_end() {
    let mut l = setup_game();

    buy_as(&mut l, 1, 10, 1000);
    buy_as(&mut l, 2, 10, 1000);

    let end = l.game.timer_end;
    let payout = claim_as(&mut l, 1, end + 1).unwrap();
    assert!(payout > 0, "P1 should gain from claiming dividends");

    let ps1 = player_of(&l, 1);
    assert!(ps1.claimed_dividends_lamports > 0);
    assert_eq!(ps1.current_round, 0);
    assert_eq!(ps1.keys, 0);
}

#[test]
fn test_claim_fails_while_round_active() {
    // Dividends are end-of-round only — a claim fails while the round is live
    let mut l = setup_game();

    buy_as(&mut l, 1, 10, 1000);
    buy_as(&mut l, 2, 10, 1000);

    // Do NOT expire the timer — round is still active
    let err = claim_as(&mut l, 1, 2000);
    assert_eq!(err, Err(FomoltError::GameStillActive), "Expected GameStillActive error");
}

#[test]
fn test_multi_player_dividend_fairness() {
    let mut l = setup_game();

    // Everyone buys 10 keys
    for who in 1..=5u64 {
        buy_as(&mut l, who, 10, 1000);
    }

    // An extra buyer generates dividends for all and becomes the winner
    buy_as(&mut l, 6, 10, 1000);

    let end = l.game.timer_end;

    // All 5 original players claim; all get some amount > 0
    for who in 1..=5u64 {
        let payout = claim_as(&mut l, who, end + 1).unwrap();
        assert!(payout > 0, "Player {} should have received dividends", who);
    }
}

#[test]
fn test_proportional_dividend_share_at_round_end() {
    // Two players with unequal keys: verify dividend proportionality
    let mut l = setup_game();

    // P1 buys 30 keys, P2 buys 10 keys (3:1 ratio)
    buy_as(&mut l, 1, 30, 1000);
    buy_as(&mut l, 2, 10, 1000);

    // Extra buyer to generate more dividends
    buy_as(&mut l, 3, 10, 1000);

    let end = l.game.timer_end;

    let p1_payout = claim_as(&mut l, 1, end + 1).unwrap();
    let p2_payout = claim_as(&mut l, 2, end + 1).unwrap();

    // P1 = 30/50 of the pool, P2 = 10/50 of the pool
    assert!(
        p1_payout > p2_payout,
        "P1 (30 keys) should get more than P2 (10 keys). P1: {}, P2: {}",
        p1_payout,
        p2_payout
    );
}

#[test]
fn test_first_buy_dividends_go_to_total_pool() {
    let mut l = setup_game();

    buy_as(&mut l, 1, 5, 1000);

    // First buy: dividend portion still accumulates in the pool
    assert!(l.game.total_dividend_pool > 0, "Total dividend pool should have funds from first buy");
    assert!(l.game.winner_pot > 0, "Winner pot should accumulate");
}

#[test]
fn test_nothing_to_claim_fails() {
    let mut l = setup_game();

    // Register only — no keys bought, and another participant is the buyer
    buy_as(&mut l, 1, 0, 1000);
    buy_as(&mut l, 2, 5, 1000);

    let end = l.game.timer_end;
    let err = claim_as(&mut l, 1, end + 1);
    assert_eq!(err, Err(FomoltError::NothingToClaim), "Expected NothingToClaim");
}

#[test]
fn test_double_claim_prevented() {
    // After claiming, current_round = 0 so a second claim fails
    let mut l = setup_game();

    buy_as(&mut l, 1, 10, 1000);
    buy_as(&mut l, 2, 5, 1000);

    let end = l.game.timer_end;

    // First claim succeeds
    claim_as(&mut l, 1, end + 1).unwrap();
    assert_eq!(player_of(&l, 1).current_round, 0);

    // Second claim fails — the participant is no longer in round 1
    let err = claim_as(&mut l, 1, end + 1);
    assert_eq!(
        err,
        Err(FomoltError::PlayerNotInRound),
        "Expected PlayerNotInRound (double claim prevented)"
    );
}

// ===== Precision and edge cases =====

#[test]
fn test_single_holder_gets_full_pool() {
    // P1 holds all keys: claims winner pot + the full dividend pool.
    let mut l = setup_game();

    buy_as(&mut l, 1, 10, 1000);

    let div_pool = l.game.total_dividend_pool;
    assert!(div_pool > 0, "Dividend pool should be > 0");
    let expected = l.game.winner_pot + div_pool;

    let end = l.game.timer_end;
    let received = claim_as(&mut l, 1, end + 1).unwrap();

    assert_eq!(
        received, expected,
        "Single holder should get winner_pot + full dividend pool: received={}, expected={}",
        received, expected
    );

    // With the no-deduction model, the pool value stays constant in state
    assert_eq!(l.game.total_dividend_pool, div_pool, "Pool should stay constant (no deduction on claim)");
}

#[test]
fn test_unequal_holdings_proportional() {
    // P1 = 1 key, P2 = 99 keys. P1 claims first. P2 gets exactly 99x.
    let mut l = setup_game();

    buy_as(&mut l, 1, 1, 1000);
    buy_as(&mut l, 2, 99, 1000); // p2 = winner, has 99 keys

    assert_eq!(l.game.total_keys, 100);
    let winner_pot = l.game.winner_pot;
    let end = l.game.timer_end;

    let p1_dividends = claim_as(&mut l, 1, end + 1).unwrap();
    let p2_total = claim_as(&mut l, 2, end + 1).unwrap();
    let p2_dividends = p2_total - winner_pot;

    // No first-claimer advantage: exactly proportional
    assert_eq!(
        p2_dividends,
        p1_dividends * 99,
        "P2 (99 keys) should get exactly 99x P1 (1 key): P1={}, P2={}",
        p1_dividends,
        p2_dividends
    );
}

#[test]
fn test_first_buy_dividend_to_pool() {
    // The first buyer's dividend goes to the pool and can be reclaimed at
    // round end.
    let mut l = setup_game();

    assert_eq!(l.game.total_dividend_pool, 0);

    buy_as(&mut l, 1, 1, 1000);
    assert!(
        l.game.total_dividend_pool > 0,
        "First buy should add to dividend pool even with no other holders"
    );

    let end = l.game.timer_end;
    let received = claim_as(&mut l, 1, end + 1).unwrap();
    assert!(received > 0, "First buyer should reclaim their own dividends");
}

#[test]
fn test_50_buys_accumulation_correct() {
    // 50 sequential buys. The pool equals the sum of each buy's dividend part.
    let config = test_config();
    let mut l = setup_game();

    let mut expected_total_dividends = 0u64;
    let mut supply = 0u64;

    for i in 0..50u64 {
        let cost = math::calculate_cost(
            supply,
            1,
            config.base_price_lamports,
            config.price_increment_lamports,
        )
        .unwrap();
        let fee = math::calculate_bps_split(cost, config.protocol_fee_bps).unwrap();
        let pot_contribution = cost - fee; // no referrals here
        let dividend = math::calculate_bps_split(pot_contribution, config.dividend_bps).unwrap();
        expected_total_dividends += dividend;
        supply += 1;

        buy_as(&mut l, 1 + i % 5, 1, 1000);
    }

    assert_eq!(
        l.game.total_dividend_pool, expected_total_dividends,
        "Dividend pool mismatch after 50 buys: actual={}, expected={}",
        l.game.total_dividend_pool, expected_total_dividends
    );
}

#[test]
fn test_late_joiner_shares_full_pool() {
    // The dividend model is pool-based: all holders share the entire pool
    // proportionally at claim time, regardless of when they joined.
    let mut l = setup_game();

    // Early buyer generates a large dividend pool
    buy_as(&mut l, 1, 20, 1000);

    let pool_before_late = l.game.total_dividend_pool;
    assert!(pool_before_late > 0);

    // Late joiner buys the same amount of keys
    buy_as(&mut l, 2, 20, 1000); // late joiner = winner

    // Both have 20 keys each out of 40 total = 50% each
    assert_eq!(l.game.total_keys, 40);
    let pool = l.game.total_dividend_pool;

    let end = l.game.timer_end;
    let early_dividends = claim_as(&mut l, 1, end + 1).unwrap();

    assert!(early_dividends > 0, "Early buyer should get dividends");

    // With no deduction, equal keys = equal dividends = exactly 50% of pool
    let expected_half = pool / 2;
    assert!(
        early_dividends >= expected_half - 1 && early_dividends <= expected_half + 1,
        "Early buyer with 50% keys should get exactly 50% of pool: got={}, expected={}",
        early_dividends,
        expected_half
    );
}

#[test]
fn test_3_way_equal_split_rounding() {
    // 3 players with equal keys. pool / 3 has a remainder. Dust ≤ 2.
    let mut l = setup_game();

    buy_as(&mut l, 1, 10, 1000);
    buy_as(&mut l, 2, 10, 1000);
    buy_as(&mut l, 3, 10, 1000); // p3 = winner

    let initial_pool = l.game.total_dividend_pool;
    let winner_pot = l.game.winner_pot;
    let end = l.game.timer_end;

    let mut total_div_claimed = 0u64;
    for who in 1..=3u64 {
        let received = claim_as(&mut l, who, end + 1).unwrap();
        if who == 3 {
            total_div_claimed += received - winner_pot;
        } else {
            total_div_claimed += received;
        }
    }

    // With the no-deduction model, all 3 get equal shares; only integer
    // division rounding dust remains.
    let dust = initial_pool - total_div_claimed;
    assert!(
        dust <= 2, // at most 2 lamports from pool / 3 integer division
        "Rounding dust should be minimal: dust={}, pool={}",
        dust,
        initial_pool
    );
}

#[test]
fn test_zero_key_player_gets_nothing() {
    // A registered participant with 0 keys has nothing to claim.
    let mut l = setup_game();

    buy_as(&mut l, 1, 10, 1000); // buyer
    buy_as(&mut l, 2, 0, 1000); // freeloader registers only

    let end = l.game.timer_end;

    // Buyer must still be able to claim; freeloader cannot.
    // (The buyer is also the winner here.)
    let err = claim_as(&mut l, 2, end + 1);
    assert_eq!(err, Err(FomoltError::NothingToClaim), "Zero-key player claim should fail");
}

#[test]
fn test_winner_pot_includes_carry_over() {
    // Round 2 starts with winner_pot = carry_over; the first buyer's
    // purchase adds to it.
    let config = test_config();
    let mut l = setup_game();

    buy_as(&mut l, 1, 5, 1000);

    let carry_over = l.game.next_round_pot;
    assert!(carry_over > 0);

    let end = l.game.timer_end;
    claim_as(&mut l, 1, end + 1).unwrap();
    let mut l2 = l.start_next_round(&config, end + 1).unwrap();

    // Round 2 starts with winner_pot = carry_over
    assert_eq!(l2.game.winner_pot, carry_over);

    // A new player buys — winner_pot grows
    buy_as(&mut l2, 7, 1, end + 2);
    assert!(
        l2.game.winner_pot > carry_over,
        "Winner pot should grow: before={}, after={}",
        carry_over,
        l2.game.winner_pot
    );
}
