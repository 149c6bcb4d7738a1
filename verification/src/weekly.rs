use vstd::prelude::*;
use crate::errors::LotteryError;
use crate::outcome::weekly_numbers;
use crate::rng::{clone_bytes, generate_vrf_random_number, vrf_digest};
use crate::state::LotteryState;

verus! {

/// How long the lottery stays locked after a weekly draw, in seconds.
pub const LOCK_DURATION: i64 = 600;

/// The daily draw window opens at UTC midnight ...
pub const DRAW_START_TIME: i64 = 0;

/// ... and closes 600 seconds later, both boundaries included.
pub const DRAW_END_TIME: i64 = 600;

/// The immutable configuration of a weekly lottery instance.
pub struct WeeklyConfig {
    pub authority: [u8; 32],
    pub token_mint: [u8; 32],
    pub min_purchase_amount: u32,
}

/// A valid weekly ticket: six pairwise-distinct red numbers in `[1, 33]`
/// followed by one blue number in `[1, 16]`.
pub open spec fn valid_weekly_ticket(numbers: Seq<u8>) -> bool {
    &&& numbers.len() == 7
    &&& forall|i: int| 0 <= i < 6 ==> 1 <= #[trigger] numbers[i] <= 33
    &&& forall|i: int, j: int| 0 <= i < j < 6 ==> numbers[i] != numbers[j]
    &&& 1 <= numbers[6] <= 16
}

/// Checks a player's numbers against the weekly rules: red balls 1 to 33
/// without duplicates, blue ball 1 to 16. Pure; rejecting a ticket has no
/// side effect.
pub fn validate_ticket_numbers(numbers: &[u8; 7]) -> (r: bool)
    ensures
        r == valid_weekly_ticket(numbers@),
{
    let mut i: usize = 0;
    while i < 6
        invariant
            0 <= i <= 6,
            numbers@.len() == 7,
            forall|k: int| 0 <= k < i ==> 1 <= #[trigger] numbers@[k] <= 33,
            forall|k: int, l: int| 0 <= k < l < i ==> numbers@[k] != numbers@[l],
        decreases 6 - i,
    {
        let num = numbers[i];
        if num < 1 || num > 33 {
            return false;
        }
        let mut j: usize = 0;
        while j < i
            invariant
                0 <= j <= i < 6,
                numbers@.len() == 7,
                num == numbers@[i as int],
                forall|k: int| 0 <= k < j ==> numbers@[k] != num,
            decreases i - j,
        {
            if numbers[j] == num {
                return false;
            }
            j = j + 1;
        }
        i = i + 1;
    }
    numbers[6] >= 1 && numbers[6] <= 16
}

/// Whether the daily draw window is open at `now`: the elapsed seconds
/// since the start of the current day lie in `[0, 600]`, both ends included.
pub open spec fn weekly_window_ok(now: i64) -> bool
    recommends
        now >= 0,
{
    DRAW_START_TIME <= now % 86400 && now % 86400 <= DRAW_END_TIME
}

/// The error a refused weekly purchase reports, if any. A locked lottery
/// whose lock period has elapsed does not refuse the purchase: it unlocks.
pub open spec fn buy_err(
    cfg: WeeklyConfig,
    st: LotteryState,
    now: i64,
    numbers: Seq<u8>,
    amount: u64,
) -> Option<LotteryError> {
    if st.locked && !(now - st.last_draw_time > LOCK_DURATION) {
        Some(LotteryError::LotteryLocked)
    } else if amount < cfg.min_purchase_amount as u64 {
        Some(LotteryError::InsufficientAmount)
    } else if !valid_weekly_ticket(numbers) {
        Some(LotteryError::InvalidTicketNumbers)
    } else if st.pool_amount + amount > u64::MAX {
        Some(LotteryError::ArithmeticOverflow)
    } else if st.play_count + 1 > u64::MAX {
        Some(LotteryError::ArithmeticOverflow)
    } else {
        None
    }
}

/// The state after an accepted purchase: the pool grows by exactly the
/// amount paid, the play count by one, and the lottery is (or stays)
/// unlocked.
pub open spec fn buy_post(st: LotteryState, amount: u64) -> LotteryState {
    (LotteryState {
        locked: false,
        pool_amount: (st.pool_amount + amount) as u64,
        play_count: (st.play_count + 1) as u64,
        ..st
    })
}

/// Sells a weekly ticket. A lottery still inside its lock period refuses
/// the purchase; one whose lock period has elapsed auto-unlocks. The bet
/// must reach the configured minimum and the numbers must be valid; then
/// the pool is credited by exactly `amount` and the play count advances.
/// Any refusal leaves the state untouched.
pub fn buy_ticket(
    cfg: &WeeklyConfig,
    st: &mut LotteryState,
    now: i64,
    numbers: &[u8; 7],
    amount: u64,
) -> (r: Result<(), LotteryError>)
    requires
        old(st).wf(),
        now >= 0,
    ensures
        final(st).wf(),
        r is Ok <==> buy_err(*cfg, *old(st), now, numbers@, amount) is None,
        r is Ok ==> *final(st) == buy_post(*old(st), amount),
        r matches Err(e) ==> *final(st) == *old(st) && Some(e) == buy_err(
            *cfg,
            *old(st),
            now,
            numbers@,
            amount,
        ),
{
    if st.locked {
        let time_since_last_draw = now - st.last_draw_time;
        if time_since_last_draw <= LOCK_DURATION {
            return Err(LotteryError::LotteryLocked);
        }
    }
    if amount < cfg.min_purchase_amount as u64 {
        return Err(LotteryError::InsufficientAmount);
    }
    if !validate_ticket_numbers(numbers) {
        return Err(LotteryError::InvalidTicketNumbers);
    }
    let new_pool = match st.pool_amount.checked_add(amount) {
        Some(p) => p,
        None => { return Err(LotteryError::ArithmeticOverflow) },
    };
    let new_play_count = match st.play_count.checked_add(1) {
        Some(p) => p,
        None => { return Err(LotteryError::ArithmeticOverflow) },
    };
    st.locked = false;
    st.pool_amount = new_pool;
    st.play_count = new_play_count;
    Ok(())
}

/// The error a refused weekly draw reports, if any.
pub open spec fn draw_err(
    st: LotteryState,
    now: i64,
    has_blockhashes: bool,
    has_slot: bool,
) -> Option<LotteryError> {
    if !weekly_window_ok(now) {
        Some(LotteryError::InvalidDrawTime)
    } else if st.locked {
        Some(LotteryError::AlreadyDrawn)
    } else if !has_blockhashes || !has_slot {
        Some(LotteryError::EntropyUnavailable)
    } else {
        None
    }
}

/// Draws the weekly numbers. Permitted only inside the daily window and
/// while unlocked; the digest is derived from the given public entropy
/// sources, mapped to six unique red numbers and a blue number, and the
/// lottery locks with the draw time and numbers recorded. A refused draw
/// leaves the state untouched.
pub fn draw(
    st: &mut LotteryState,
    now: i64,
    recent_blockhashes: &Option<Vec<u8>>,
    account_data: &Vec<u8>,
    lamports: u64,
    slot: &Option<u64>,
    uuid: &Vec<u8>,
) -> (r: Result<Vec<u8>, LotteryError>)
    requires
        old(st).wf(),
        now >= 0,
    ensures
        final(st).wf(),
        r is Ok <==> draw_err(
            *old(st),
            now,
            recent_blockhashes is Some,
            slot is Some,
        ) is None,
        r matches Ok(numbers) ==> {
            let digest = vrf_digest(
                uuid@,
                now,
                recent_blockhashes.unwrap()@,
                account_data@,
                lamports,
                slot.unwrap(),
            );
            &&& numbers@ == weekly_numbers(digest)
            &&& numbers@.len() == 7
            &&& (forall|i: int| 0 <= i < 6 ==> 1 <= #[trigger] numbers@[i] <= 33)
            &&& (forall|i: int, j: int| 0 <= i < j < 6 ==> numbers@[i] != numbers@[j])
            &&& 1 <= numbers@[6] <= 16
            &&& final(st).locked == true
            &&& final(st).last_draw_time == now
            &&& final(st).last_draw_numbers@ == numbers@
            &&& final(st).pool_amount == old(st).pool_amount
            &&& final(st).prize_liability == old(st).prize_liability
            &&& final(st).play_count == old(st).play_count
        },
        r matches Err(e) ==> *final(st) == *old(st) && Some(e) == draw_err(
            *old(st),
            now,
            recent_blockhashes is Some,
            slot is Some,
        ),
{
    let seconds_from_day_start = (now as u64) % 86400;
    if seconds_from_day_start > DRAW_END_TIME as u64 {
        return Err(LotteryError::InvalidDrawTime);
    }
    if st.locked {
        return Err(LotteryError::AlreadyDrawn);
    }
    let digest = match generate_vrf_random_number(
        now,
        recent_blockhashes,
        account_data,
        lamports,
        slot,
        uuid,
    ) {
        Ok(d) => d,
        Err(e) => { return Err(e) },
    };
    let numbers = crate::outcome::convert_random_to_numbers(&digest);
    let recorded = clone_bytes(&numbers);
    st.last_draw_time = now;
    st.locked = true;
    st.last_draw_numbers = recorded;
    Ok(numbers)
}

/// The error a refused prize accrual reports, if any.
pub open spec fn update_prize_err(st: LotteryState, now: i64, prize_amount: u64) -> Option<
    LotteryError,
> {
    if !(st.locked && now - st.last_draw_time <= LOCK_DURATION) {
        Some(LotteryError::PrizeUpdateWindowClosed)
    } else if prize_amount == 0 {
        Some(LotteryError::InvalidPrizeAmount)
    } else if st.prize_liability + prize_amount > u64::MAX {
        Some(LotteryError::ArithmeticOverflow)
    } else if st.prize_liability + prize_amount > st.pool_amount {
        Some(LotteryError::InsufficientPool)
    } else {
        None
    }
}

/// Accrues prize liability for the latest draw. Permitted only while the
/// lottery is locked and within the settlement window that follows a draw,
/// and only for a positive amount covered by the pooled funds. A refused
/// accrual leaves the state untouched.
pub fn update_prize_amount(st: &mut LotteryState, now: i64, prize_amount: u64) -> (r: Result<
    (),
    LotteryError,
>)
    requires
        old(st).wf(),
        now >= 0,
    ensures
        final(st).wf(),
        r is Ok <==> update_prize_err(*old(st), now, prize_amount) is None,
        r is Ok ==> *final(st) == (LotteryState {
            prize_liability: (old(st).prize_liability + prize_amount) as u64,
            ..*old(st)
        }),
        r matches Err(e) ==> *final(st) == *old(st) && Some(e) == update_prize_err(
            *old(st),
            now,
            prize_amount,
        ),
{
    if !(st.locked && now - st.last_draw_time <= LOCK_DURATION) {
        return Err(LotteryError::PrizeUpdateWindowClosed);
    }
    if prize_amount == 0 {
        return Err(LotteryError::InvalidPrizeAmount);
    }
    st.accrue_liability(prize_amount)
}

/// Creates a weekly lottery instance: unlocked, with an empty ledger and
/// seven zeroed draw numbers.
pub fn initialize(authority: [u8; 32], token_mint: [u8; 32], min_purchase_amount: u32) -> (r: (
    WeeklyConfig,
    LotteryState,
))
    ensures
        r.0.authority@ == authority@,
        r.0.token_mint@ == token_mint@,
        r.0.min_purchase_amount == min_purchase_amount,
        r.1.wf(),
        r.1.locked == false,
        r.1.last_draw_time == 0,
        r.1.last_draw_numbers@ =~= seq![0u8, 0u8, 0u8, 0u8, 0u8, 0u8, 0u8],
        r.1.pool_amount == 0,
        r.1.prize_liability == 0,
        r.1.play_count == 0,
{
    let mut numbers: Vec<u8> = Vec::new();
    let mut i: usize = 0;
    while i < 7
        invariant
            0 <= i <= 7,
            numbers@ =~= Seq::new(i as nat, |j: int| 0u8),
        decreases 7 - i,
    {
        numbers.push(0u8);
        i = i + 1;
    }
    let config = WeeklyConfig { authority, token_mint, min_purchase_amount };
    let state = LotteryState {
        locked: false,
        last_draw_time: 0,
        last_draw_numbers: numbers,
        pool_amount: 0,
        prize_liability: 0,
        play_count: 0,
    };
    proof {
        assert(state.last_draw_numbers@ =~= seq![0u8, 0u8, 0u8, 0u8, 0u8, 0u8, 0u8]);
    }
    (config, state)
}

} // verus!
