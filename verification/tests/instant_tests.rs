use lottery_engine::errors::LotteryError;
use lottery_engine::instant::{claim_prize, initialize, play, set_locked};
use lottery_engine::outcome::get_number;
use lottery_engine::rng::ClockInfo;

fn clock() -> Option<ClockInfo> {
    Some(ClockInfo { slot: 42, unix_timestamp: 1_700_000_000 })
}

fn blockhash() -> Vec<u8> {
    vec![9u8; 32]
}

fn player() -> Vec<u8> {
    vec![7u8; 32]
}

#[test]
fn instant_initialize_presets() {
    let (cfg, st) = initialize([1u8; 32], [2u8; 32], 10);
    assert_eq!(cfg.min_bet, 10);
    assert_eq!(cfg.total_weight, 10000);
    assert_eq!(cfg.weight_ranges, [4660, 7627, 8858, 9578, 10000]);
    assert_eq!(cfg.multipliers, [2, 5, 10, 50, 100]);
    assert!(!st.locked);
    assert_eq!(st.pool_amount, 0);
    assert_eq!(st.prize_liability, 0);
    assert_eq!(st.play_count, 0);
}

#[test]
fn tier_boundaries_are_exclusive() {
    let ranges = [4660u32, 7627, 8858, 9578, 10000];
    assert_eq!(get_number(0, &ranges), 1);
    assert_eq!(get_number(4659, &ranges), 1);
    // A value equal to a boundary lands past it.
    assert_eq!(get_number(4660, &ranges), 2);
    assert_eq!(get_number(7626, &ranges), 2);
    assert_eq!(get_number(7627, &ranges), 3);
    assert_eq!(get_number(8858, &ranges), 4);
    assert_eq!(get_number(9578, &ranges), 5);
    assert_eq!(get_number(9999, &ranges), 5);
}

#[test]
fn instant_losing_play_credits_pool_only() {
    let (cfg, mut st) = initialize([1u8; 32], [2u8; 32], 10);
    let out = play(
        &cfg,
        &mut st,
        100,
        &blockhash(),
        &player(),
        &clock(),
        &b"lose-0".to_vec(),
    )
    .unwrap();
    assert_eq!(out.numbers, [2, 3, 3]);
    assert_eq!(out.win_multiplier, 0);
    assert_eq!(out.prize, 0);
    assert_eq!(st.pool_amount, 100);
    assert_eq!(st.play_count, 1);
    assert_eq!(st.prize_liability, 0);
}

#[test]
fn instant_winning_play_pays_bet_times_multiplier_plus_bonus() {
    let (cfg, mut st) = initialize([1u8; 32], [2u8; 32], 10);
    st.pool_amount = 10_000;
    let out = play(
        &cfg,
        &mut st,
        100,
        &blockhash(),
        &player(),
        &clock(),
        &b"win-41".to_vec(),
    )
    .unwrap();
    assert_eq!(out.numbers, [2, 2, 2]);
    assert_eq!(out.win_multiplier, 5);
    // floor(100 * 5 * 101 / 100)
    assert_eq!(out.prize, 505);
    assert_eq!(st.pool_amount, 10_100);
    assert_eq!(st.prize_liability, 505);
    assert_eq!(st.play_count, 1);
}

#[test]
fn instant_win_beyond_pool_refused() {
    let (cfg, mut st) = initialize([1u8; 32], [2u8; 32], 10);
    // This nonce hits the jackpot tier: multiplier 100, prize 10100 on a
    // bet of 100 — more than the pool would hold.
    let r = play(
        &cfg,
        &mut st,
        100,
        &blockhash(),
        &player(),
        &clock(),
        &b"win2-2539".to_vec(),
    );
    assert_eq!(r.unwrap_err(), LotteryError::InsufficientPool);
    assert_eq!(st.pool_amount, 0);
    assert_eq!(st.play_count, 0);
    assert_eq!(st.prize_liability, 0);
}

#[test]
fn instant_play_locked_refused() {
    let (cfg, mut st) = initialize([1u8; 32], [2u8; 32], 10);
    st.locked = true;
    let r = play(&cfg, &mut st, 100, &blockhash(), &player(), &clock(), &b"x".to_vec());
    assert_eq!(r.unwrap_err(), LotteryError::LotteryLocked);
}

#[test]
fn instant_play_small_bet_refused() {
    let (cfg, mut st) = initialize([1u8; 32], [2u8; 32], 10);
    let r = play(&cfg, &mut st, 9, &blockhash(), &player(), &clock(), &b"x".to_vec());
    assert_eq!(r.unwrap_err(), LotteryError::BetTooSmall);
    assert_eq!(st.pool_amount, 0);
}

#[test]
fn instant_play_without_clock_refused() {
    let (cfg, mut st) = initialize([1u8; 32], [2u8; 32], 10);
    let r = play(&cfg, &mut st, 100, &blockhash(), &player(), &None, &b"x".to_vec());
    assert_eq!(r.unwrap_err(), LotteryError::EntropyUnavailable);
    assert_eq!(st.pool_amount, 0);
}

#[test]
fn instant_claim_settles_pool_and_liability() {
    let (_, mut st) = initialize([1u8; 32], [2u8; 32], 10);
    st.pool_amount = 1000;
    st.prize_liability = 505;
    assert_eq!(claim_prize(&mut st, 500, 5, 1_700_000_100, 1_700_000_000), Ok(()));
    assert_eq!(st.pool_amount, 495);
    assert_eq!(st.prize_liability, 0);
    // The same claim a second time finds the liability exhausted.
    assert_eq!(
        claim_prize(&mut st, 500, 5, 1_700_000_100, 1_700_000_000),
        Err(LotteryError::InsufficientLiability)
    );
    assert_eq!(st.pool_amount, 495);
}

#[test]
fn instant_claim_stale_signature_refused() {
    let (_, mut st) = initialize([1u8; 32], [2u8; 32], 10);
    st.pool_amount = 1000;
    st.prize_liability = 505;
    assert_eq!(
        claim_prize(&mut st, 500, 5, 1_700_000_300, 1_700_000_000),
        Err(LotteryError::SignatureExpired)
    );
    assert_eq!(
        claim_prize(&mut st, 500, 5, 1_700_000_299, 1_700_000_000),
        Ok(())
    );
}

#[test]
fn instant_claim_uncovered_refused() {
    let (_, mut st) = initialize([1u8; 32], [2u8; 32], 10);
    st.pool_amount = 1000;
    st.prize_liability = 504;
    assert_eq!(
        claim_prize(&mut st, 500, 5, 1_700_000_100, 1_700_000_000),
        Err(LotteryError::InsufficientLiability)
    );
    st.prize_liability = 0;
    assert_eq!(
        claim_prize(&mut st, 1, 0, 1_700_000_100, 1_700_000_000),
        Err(LotteryError::InsufficientLiability)
    );
}

#[test]
fn instant_claim_total_overflow_refused() {
    let (_, mut st) = initialize([1u8; 32], [2u8; 32], 10);
    st.pool_amount = u64::MAX;
    st.prize_liability = u64::MAX;
    assert_eq!(
        claim_prize(&mut st, u64::MAX, 1, 1_700_000_100, 1_700_000_000),
        Err(LotteryError::ArithmeticOverflow)
    );
    assert_eq!(st.prize_liability, u64::MAX);
}

#[test]
fn instant_admin_overwrites_given_fields_only() {
    let (mut cfg, mut st) = initialize([1u8; 32], [2u8; 32], 10);
    assert_eq!(
        set_locked(&mut cfg, &mut st, Some(true), None, None, None),
        Ok(())
    );
    assert!(st.locked);
    assert_eq!(cfg.total_weight, 10000);
    assert_eq!(
        set_locked(
            &mut cfg,
            &mut st,
            None,
            Some(500),
            Some([100, 200, 300, 400, 500]),
            Some([1, 2, 3, 4, 5]),
        ),
        Ok(())
    );
    assert!(st.locked);
    assert_eq!(cfg.total_weight, 500);
    assert_eq!(cfg.weight_ranges, [100, 200, 300, 400, 500]);
    assert_eq!(cfg.multipliers, [1, 2, 3, 4, 5]);
    assert_eq!(cfg.min_bet, 10);
}
