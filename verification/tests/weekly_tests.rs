use lottery_engine::errors::LotteryError;
use lottery_engine::weekly::{
    buy_ticket, draw, initialize, update_prize_amount, validate_ticket_numbers,
};

// A timestamp at UTC midnight, so the daily draw window is open.
const MIDNIGHT: i64 = 1_641_600_000;

fn entropy() -> (Option<Vec<u8>>, Vec<u8>, u64, Option<u64>) {
    let blockhashes: Vec<u8> = (0u8..32).collect();
    let account_data = vec![1u8, 2, 3, 4];
    (Some(blockhashes), account_data, 123_456_789, Some(555))
}

#[test]
fn weekly_initialize_defaults() {
    let (cfg, st) = initialize([7u8; 32], [8u8; 32], 50);
    assert_eq!(cfg.authority, [7u8; 32]);
    assert_eq!(cfg.token_mint, [8u8; 32]);
    assert_eq!(cfg.min_purchase_amount, 50);
    assert!(!st.locked);
    assert_eq!(st.last_draw_time, 0);
    assert_eq!(st.last_draw_numbers, vec![0u8; 7]);
    assert_eq!(st.pool_amount, 0);
    assert_eq!(st.prize_liability, 0);
    assert_eq!(st.play_count, 0);
}

#[test]
fn weekly_purchase_credits_pool_exactly() {
    let (cfg, mut st) = initialize([0u8; 32], [0u8; 32], 10);
    let numbers = [1u8, 2, 3, 4, 5, 6, 7];
    assert_eq!(buy_ticket(&cfg, &mut st, 100, &numbers, 55), Ok(()));
    assert_eq!(st.pool_amount, 55);
    assert_eq!(st.play_count, 1);
    assert_eq!(buy_ticket(&cfg, &mut st, 101, &numbers, 10), Ok(()));
    assert_eq!(st.pool_amount, 65);
    assert_eq!(st.play_count, 2);
}

#[test]
fn weekly_purchase_below_minimum_refused() {
    let (cfg, mut st) = initialize([0u8; 32], [0u8; 32], 10);
    let numbers = [1u8, 2, 3, 4, 5, 6, 7];
    assert_eq!(
        buy_ticket(&cfg, &mut st, 100, &numbers, 9),
        Err(LotteryError::InsufficientAmount)
    );
    assert_eq!(st.pool_amount, 0);
}

#[test]
fn weekly_purchase_bad_numbers_refused() {
    let (cfg, mut st) = initialize([0u8; 32], [0u8; 32], 10);
    // A duplicated red ball.
    assert_eq!(
        buy_ticket(&cfg, &mut st, 100, &[1u8, 2, 3, 4, 5, 5, 7], 50),
        Err(LotteryError::InvalidTicketNumbers)
    );
    // A red ball out of range.
    assert_eq!(
        buy_ticket(&cfg, &mut st, 100, &[0u8, 2, 3, 4, 5, 6, 7], 50),
        Err(LotteryError::InvalidTicketNumbers)
    );
    assert_eq!(
        buy_ticket(&cfg, &mut st, 100, &[34u8, 2, 3, 4, 5, 6, 7], 50),
        Err(LotteryError::InvalidTicketNumbers)
    );
    // A blue ball out of range.
    assert_eq!(
        buy_ticket(&cfg, &mut st, 100, &[1u8, 2, 3, 4, 5, 6, 17], 50),
        Err(LotteryError::InvalidTicketNumbers)
    );
    assert_eq!(st.pool_amount, 0);
    assert_eq!(st.play_count, 0);
}

#[test]
fn weekly_ticket_validation_rules() {
    assert!(validate_ticket_numbers(&[1, 2, 3, 4, 5, 6, 16]));
    assert!(validate_ticket_numbers(&[33, 32, 31, 30, 29, 28, 1]));
    assert!(!validate_ticket_numbers(&[1, 2, 3, 4, 5, 6, 0]));
    assert!(!validate_ticket_numbers(&[1, 1, 3, 4, 5, 6, 7]));
    // The blue ball may repeat a red one.
    assert!(validate_ticket_numbers(&[1, 2, 3, 4, 5, 6, 6]));
}

#[test]
fn weekly_purchase_auto_unlocks_after_lock_period() {
    let (cfg, mut st) = initialize([0u8; 32], [0u8; 32], 10);
    st.locked = true;
    st.last_draw_time = MIDNIGHT;
    let numbers = [1u8, 2, 3, 4, 5, 6, 7];
    // Within the 600-second lock period the purchase is refused.
    assert_eq!(
        buy_ticket(&cfg, &mut st, MIDNIGHT + 600, &numbers, 50),
        Err(LotteryError::LotteryLocked)
    );
    assert!(st.locked);
    // Once the lock period has elapsed the purchase unlocks the lottery.
    assert_eq!(buy_ticket(&cfg, &mut st, MIDNIGHT + 601, &numbers, 50), Ok(()));
    assert!(!st.locked);
    assert_eq!(st.pool_amount, 50);
}

#[test]
fn weekly_draw_window_boundaries() {
    let (blockhashes, account_data, lamports, slot) = entropy();
    let uuid = b"window".to_vec();
    // At 0 and at 600 seconds past midnight the draw succeeds.
    for offset in [0i64, 600] {
        let (_, mut st) = initialize([0u8; 32], [0u8; 32], 10);
        let r = draw(
            &mut st,
            MIDNIGHT + offset,
            &blockhashes,
            &account_data,
            lamports,
            &slot,
            &uuid,
        );
        assert!(r.is_ok());
        assert!(st.locked);
    }
    // At 601 seconds it is refused.
    let (_, mut st) = initialize([0u8; 32], [0u8; 32], 10);
    let r = draw(
        &mut st,
        MIDNIGHT + 601,
        &blockhashes,
        &account_data,
        lamports,
        &slot,
        &uuid,
    );
    assert_eq!(r, Err(LotteryError::InvalidDrawTime));
    assert!(!st.locked);
}

#[test]
fn weekly_draw_reproduces_reference_numbers() {
    let (_, mut st) = initialize([0u8; 32], [0u8; 32], 10);
    let (blockhashes, account_data, lamports, slot) = entropy();
    let numbers = draw(
        &mut st,
        MIDNIGHT,
        &blockhashes,
        &account_data,
        lamports,
        &slot,
        &b"weekly-test-uuid".to_vec(),
    )
    .unwrap();
    // The digest chain of these exact entropy sources, mapped slot by slot.
    assert_eq!(numbers, vec![1u8, 21, 13, 14, 7, 18, 14]);
    assert!(st.locked);
    assert_eq!(st.last_draw_time, MIDNIGHT);
    assert_eq!(st.last_draw_numbers, numbers);
}

#[test]
fn weekly_draw_resolves_collisions_upward() {
    let (_, mut st) = initialize([0u8; 32], [0u8; 32], 10);
    let (blockhashes, account_data, lamports, slot) = entropy();
    // This nonce makes the raw digest candidates collide: 14, 33, 21, 7,
    // then 21 again (bumped to 22) and 7 again (bumped to 8).
    let numbers = draw(
        &mut st,
        MIDNIGHT,
        &blockhashes,
        &account_data,
        lamports,
        &slot,
        &b"coll-0".to_vec(),
    )
    .unwrap();
    assert_eq!(numbers, vec![14u8, 33, 21, 7, 22, 8, 1]);
}

#[test]
fn weekly_red_numbers_never_repeat() {
    let (blockhashes, account_data, lamports, slot) = entropy();
    for n in 0..40u32 {
        let (_, mut st) = initialize([0u8; 32], [0u8; 32], 10);
        let uuid = format!("probe-{}", n).into_bytes();
        let numbers = draw(
            &mut st,
            MIDNIGHT,
            &blockhashes,
            &account_data,
            lamports,
            &slot,
            &uuid,
        )
        .unwrap();
        assert_eq!(numbers.len(), 7);
        for i in 0..6 {
            assert!(numbers[i] >= 1 && numbers[i] <= 33);
            for j in (i + 1)..6 {
                assert_ne!(numbers[i], numbers[j]);
            }
        }
        assert!(numbers[6] >= 1 && numbers[6] <= 16);
    }
}

#[test]
fn weekly_draw_while_locked_refused() {
    let (_, mut st) = initialize([0u8; 32], [0u8; 32], 10);
    st.locked = true;
    let (blockhashes, account_data, lamports, slot) = entropy();
    let r = draw(
        &mut st,
        MIDNIGHT,
        &blockhashes,
        &account_data,
        lamports,
        &slot,
        &b"x".to_vec(),
    );
    assert_eq!(r, Err(LotteryError::AlreadyDrawn));
}

#[test]
fn weekly_draw_without_entropy_refused() {
    let (_, mut st) = initialize([0u8; 32], [0u8; 32], 10);
    let (_, account_data, lamports, slot) = entropy();
    let r = draw(&mut st, MIDNIGHT, &None, &account_data, lamports, &slot, &b"x".to_vec());
    assert_eq!(r, Err(LotteryError::EntropyUnavailable));
    let (blockhashes, account_data, lamports, _) = entropy();
    let r = draw(&mut st, MIDNIGHT, &blockhashes, &account_data, lamports, &None, &b"x".to_vec());
    assert_eq!(r, Err(LotteryError::EntropyUnavailable));
    assert!(!st.locked);
}

#[test]
fn weekly_prize_accrues_only_in_settlement_window() {
    let (_, mut st) = initialize([0u8; 32], [0u8; 32], 10);
    st.pool_amount = 1000;
    st.locked = true;
    st.last_draw_time = MIDNIGHT;
    assert_eq!(update_prize_amount(&mut st, MIDNIGHT + 600, 400), Ok(()));
    assert_eq!(st.prize_liability, 400);
    // Past the lock duration the window is closed.
    assert_eq!(
        update_prize_amount(&mut st, MIDNIGHT + 601, 100),
        Err(LotteryError::PrizeUpdateWindowClosed)
    );
    // An unlocked lottery refuses the accrual too.
    st.locked = false;
    assert_eq!(
        update_prize_amount(&mut st, MIDNIGHT + 100, 100),
        Err(LotteryError::PrizeUpdateWindowClosed)
    );
    assert_eq!(st.prize_liability, 400);
}

#[test]
fn weekly_prize_amount_must_be_positive_and_covered() {
    let (_, mut st) = initialize([0u8; 32], [0u8; 32], 10);
    st.pool_amount = 1000;
    st.locked = true;
    st.last_draw_time = MIDNIGHT;
    assert_eq!(
        update_prize_amount(&mut st, MIDNIGHT + 1, 0),
        Err(LotteryError::InvalidPrizeAmount)
    );
    assert_eq!(
        update_prize_amount(&mut st, MIDNIGHT + 1, 1001),
        Err(LotteryError::InsufficientPool)
    );
    assert_eq!(st.prize_liability, 0);
}
