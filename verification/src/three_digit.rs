use vstd::prelude::*;
use crate::errors::LotteryError;
use crate::outcome::three_d_numbers;
use crate::rng::{clone_bytes, generate_vrf_random_number, vrf_digest};
use crate::state::LotteryState;

verus! {

pub const SECONDS_PER_MINUTE: i64 = 60;

pub const MINUTES_PER_HOUR: i64 = 60;

/// The draw window spans the first minutes of each hour.
pub const DRAW_WINDOW_MINUTES: i64 = 5;

/// At least 55 minutes must pass between two draws.
pub const MIN_DRAW_INTERVAL: i64 = 3300;

/// How long the lottery stays locked after a three-digit draw, in seconds.
pub const LOCK_DURATION: i64 = 300;

/// A three-digit ticket names three numbers.
pub const NUMBERS_COUNT: usize = 3;

pub const MAX_NUMBER: u8 = 33;

pub const MIN_NUMBER: u8 = 1;

/// The immutable configuration of a three-digit lottery instance.
pub struct ThreeDigitConfig {
    pub authority: [u8; 32],
    pub token_mint: [u8; 32],
    pub min_purchase_amount: u32,
}

/// Whether the hourly draw window is open at `now`: the minute of the hour
/// is at most 5.
pub open spec fn in_draw_window(now: i64) -> bool
    recommends
        now >= 0,
{
    (now as int / (SECONDS_PER_MINUTE as int)) % (MINUTES_PER_HOUR as int) <= DRAW_WINDOW_MINUTES
        as int
}

/// Whether a draw may proceed at `now`: the minimum interval since the last
/// draw has elapsed and the lottery is not locked.
pub open spec fn can_draw_at(st: LotteryState, now: i64) -> bool {
    now - st.last_draw_time >= MIN_DRAW_INTERVAL && !st.locked
}

impl LotteryState {
    /// Whether the hourly draw window is open at `current_time`.
    pub fn is_in_draw_window(&self, current_time: i64) -> (r: bool)
        requires
            current_time >= 0,
        ensures
            r == in_draw_window(current_time),
    {
        ((current_time as u64) / 60) % 60 <= 5
    }

    /// Whether a draw may proceed at `current_time`: the minimum interval
    /// since the last draw has elapsed and the lottery is not locked.
    pub fn can_draw(&self, current_time: i64) -> (r: bool)
        requires
            self.wf(),
            current_time >= 0,
        ensures
            r == can_draw_at(*self, current_time),
    {
        let time_since_last_draw = current_time - self.last_draw_time;
        time_since_last_draw >= MIN_DRAW_INTERVAL && !self.locked
    }
}

/// A valid three-digit ticket: each of the three numbers lies in `[1, 33]`.
pub open spec fn valid_three_d_ticket(numbers: Seq<u8>) -> bool {
    &&& numbers.len() == 3
    &&& forall|i: int| 0 <= i < 3 ==> MIN_NUMBER <= #[trigger] numbers[i] <= MAX_NUMBER
}

/// Checks a player's numbers against the three-digit rules. Pure; rejecting
/// a ticket has no side effect.
pub fn validate_ticket_numbers(numbers: &[u8; 3]) -> (r: bool)
    ensures
        r == valid_three_d_ticket(numbers@),
{
    let mut i: usize = 0;
    while i < 3
        invariant
            0 <= i <= 3,
            numbers@.len() == 3,
            forall|k: int| 0 <= k < i ==> MIN_NUMBER <= #[trigger] numbers@[k] <= MAX_NUMBER,
        decreases 3 - i,
    {
        if numbers[i] < MIN_NUMBER || numbers[i] > MAX_NUMBER {
            return false;
        }
        i = i + 1;
    }
    true
}

/// The error a refused three-digit purchase reports, if any. Purchases are
/// rejected outright while the draw window is open; outside it, a lottery
/// whose lock period has elapsed auto-unlocks.
pub open spec fn buy_err(
    cfg: ThreeDigitConfig,
    st: LotteryState,
    now: i64,
    numbers: Seq<u8>,
    amount: u64,
) -> Option<LotteryError> {
    if in_draw_window(now) {
        Some(LotteryError::DrawWindowActive)
    } else if st.locked && !(now - st.last_draw_time > LOCK_DURATION) {
        Some(LotteryError::LotteryLocked)
    } else if amount < cfg.min_purchase_amount as u64 {
        Some(LotteryError::InsufficientAmount)
    } else if !valid_three_d_ticket(numbers) {
        Some(LotteryError::InvalidTicketNumbers)
    } else if st.pool_amount + amount > u64::MAX {
        Some(LotteryError::ArithmeticOverflow)
    } else if st.play_count + 1 > u64::MAX {
        Some(LotteryError::ArithmeticOverflow)
    } else {
        None
    }
}

/// The state after an accepted purchase: the pool grows by exactly the
/// amount paid, the play count by one, and the lottery is (or stays)
/// unlocked.
pub open spec fn buy_post(st: LotteryState, amount: u64) -> LotteryState {
    (LotteryState {
        locked: false,
        pool_amount: (st.pool_amount + amount) as u64,
        play_count: (st.play_count + 1) as u64,
        ..st
    })
}

/// Sells a three-digit ticket. Purchases are rejected outright while the
/// hourly draw window is open; outside it, a lottery whose lock period has
/// elapsed auto-unlocks. The bet must reach the configured minimum and the
/// numbers must be valid; then the pool is credited by exactly `amount` and
/// the play count advances. Any refusal leaves the state untouched.
pub fn buy_ticket(
    cfg: &ThreeDigitConfig,
    st: &mut LotteryState,
    now: i64,
    numbers: &[u8; 3],
    amount: u64,
) -> (r: Result<(), LotteryError>)
    requires
        old(st).wf(),
        now >= 0,
    ensures
        final(st).wf(),
        r is Ok <==> buy_err(*cfg, *old(st), now, numbers@, amount) is None,
        r is Ok ==> *final(st) == buy_post(*old(st), amount),
        r matches Err(e) ==> *final(st) == *old(st) && Some(e) == buy_err(
            *cfg,
            *old(st),
            now,
            numbers@,
            amount,
        ),
{
    if st.is_in_draw_window(now) {
        return Err(LotteryError::DrawWindowActive);
    }
    if st.locked {
        let time_since_last_draw = now - st.last_draw_time;
        if time_since_last_draw <= LOCK_DURATION {
            return Err(LotteryError::LotteryLocked);
        }
    }
    if amount < cfg.min_purchase_amount as u64 {
        return Err(LotteryError::InsufficientAmount);
    }
    if !validate_ticket_numbers(numbers) {
        return Err(LotteryError::InvalidTicketNumbers);
    }
    let new_pool = match st.pool_amount.checked_add(amount) {
        Some(p) => p,
        None => { return Err(LotteryError::ArithmeticOverflow) },
    };
    let new_play_count = match st.play_count.checked_add(1) {
        Some(p) => p,
        None => { return Err(LotteryError::ArithmeticOverflow) },
    };
    st.locked = false;
    st.pool_amount = new_pool;
    st.play_count = new_play_count;
    Ok(())
}

/// The error a refused three-digit draw reports, if any. A locked lottery
/// inside the window is reported as `DrawTooEarly` through the combined
/// `can_draw` test, before the dedicated lock check is reached.
pub open spec fn draw_err(
    st: LotteryState,
    now: i64,
    has_blockhashes: bool,
    has_slot: bool,
) -> Option<LotteryError> {
    if !in_draw_window(now) {
        Some(LotteryError::InvalidDrawTime)
    } else if !can_draw_at(st, now) {
        Some(LotteryError::DrawTooEarly)
    } else if st.locked {
        Some(LotteryError::AlreadyDrawn)
    } else if !has_blockhashes || !has_slot {
        Some(LotteryError::EntropyUnavailable)
    } else {
        None
    }
}

/// Draws the three numbers. Permitted only inside the hourly window, at
/// least 55 minutes after the previous draw, and while unlocked; the digest
/// is derived from the given public entropy sources, mapped to three
/// numbers in `[1, 33]`, and the lottery locks with the draw time and
/// numbers recorded. A refused draw leaves the state untouched.
pub fn draw(
    st: &mut LotteryState,
    now: i64,
    recent_blockhashes: &Option<Vec<u8>>,
    account_data: &Vec<u8>,
    lamports: u64,
    slot: &Option<u64>,
    uuid: &Vec<u8>,
) -> (r: Result<Vec<u8>, LotteryError>)
    requires
        old(st).wf(),
        now >= 0,
    ensures
        final(st).wf(),
        r is Ok <==> draw_err(
            *old(st),
            now,
            recent_blockhashes is Some,
            slot is Some,
        ) is None,
        r matches Ok(numbers) ==> {
            let digest = vrf_digest(
                uuid@,
                now,
                recent_blockhashes.unwrap()@,
                account_data@,
                lamports,
                slot.unwrap(),
            );
            &&& numbers@ == three_d_numbers(digest)
            &&& numbers@.len() == 3
            &&& (forall|i: int| 0 <= i < 3 ==> 1 <= #[trigger] numbers@[i] <= 33)
            &&& final(st).locked == true
            &&& final(st).last_draw_time == now
            &&& final(st).last_draw_numbers@ == numbers@
            &&& final(st).pool_amount == old(st).pool_amount
            &&& final(st).prize_liability == old(st).prize_liability
            &&& final(st).play_count == old(st).play_count
        },
        r matches Err(e) ==> *final(st) == *old(st) && Some(e) == draw_err(
            *old(st),
            now,
            recent_blockhashes is Some,
            slot is Some,
        ),
{
    if !st.is_in_draw_window(now) {
        return Err(LotteryError::InvalidDrawTime);
    }
    if !st.can_draw(now) {
        return Err(LotteryError::DrawTooEarly);
    }
    if st.locked {
        return Err(LotteryError::AlreadyDrawn);
    }
    let digest = match generate_vrf_random_number(
        now,
        recent_blockhashes,
        account_data,
        lamports,
        slot,
        uuid,
    ) {
        Ok(d) => d,
        Err(e) => { return Err(e) },
    };
    let numbers = crate::outcome::convert_random_to_3d_numbers(&digest);
    let recorded = clone_bytes(&numbers);
    st.last_draw_time = now;
    st.locked = true;
    st.last_draw_numbers = recorded;
    Ok(numbers)
}

/// The error a refused prize accrual reports, if any.
pub open spec fn update_prize_err(st: LotteryState, now: i64, prize_amount: u64) -> Option<
    LotteryError,
> {
    if !(st.locked && now - st.last_draw_time <= LOCK_DURATION) {
        Some(LotteryError::PrizeUpdateWindowClosed)
    } else if prize_amount == 0 {
        Some(LotteryError::InvalidPrizeAmount)
    } else if st.prize_liability + prize_amount > u64::MAX {
        Some(LotteryError::ArithmeticOverflow)
    } else if st.prize_liability + prize_amount > st.pool_amount {
        Some(LotteryError::InsufficientPool)
    } else {
        None
    }
}

/// Accrues prize liability for the latest draw. Permitted only while the
/// lottery is locked and within the five-minute settlement window that
/// follows a draw, and only for a positive amount covered by the pooled
/// funds. A refused accrual leaves the state untouched.
pub fn update_prize_amount(st: &mut LotteryState, now: i64, prize_amount: u64) -> (r: Result<
    (),
    LotteryError,
>)
    requires
        old(st).wf(),
        now >= 0,
    ensures
        final(st).wf(),
        r is Ok <==> update_prize_err(*old(st), now, prize_amount) is None,
        r is Ok ==> *final(st) == (LotteryState {
            prize_liability: (old(st).prize_liability + prize_amount) as u64,
            ..*old(st)
        }),
        r matches Err(e) ==> *final(st) == *old(st) && Some(e) == update_prize_err(
            *old(st),
            now,
            prize_amount,
        ),
{
    if !(st.locked && now - st.last_draw_time <= LOCK_DURATION) {
        return Err(LotteryError::PrizeUpdateWindowClosed);
    }
    if prize_amount == 0 {
        return Err(LotteryError::InvalidPrizeAmount);
    }
    st.accrue_liability(prize_amount)
}

/// Creates a three-digit lottery instance: unlocked, with an empty ledger
/// and three zeroed draw numbers.
pub fn initialize(authority: [u8; 32], token_mint: [u8; 32], min_purchase_amount: u32) -> (r: (
    ThreeDigitConfig,
    LotteryState,
))
    ensures
        r.0.authority@ == authority@,
        r.0.token_mint@ == token_mint@,
        r.0.min_purchase_amount == min_purchase_amount,
        r.1.wf(),
        r.1.locked == false,
        r.1.last_draw_time == 0,
        r.1.last_draw_numbers@ =~= seq![0u8, 0u8, 0u8],
        r.1.pool_amount == 0,
        r.1.prize_liability == 0,
        r.1.play_count == 0,
{
    let mut numbers: Vec<u8> = Vec::new();
    numbers.push(0u8);
    numbers.push(0u8);
    numbers.push(0u8);
    let config = ThreeDigitConfig { authority, token_mint, min_purchase_amount };
    let state = LotteryState {
        locked: false,
        last_draw_time: 0,
        last_draw_numbers: numbers,
        pool_amount: 0,
        prize_liability: 0,
        play_count: 0,
    };
    proof {
        assert(state.last_draw_numbers@ =~= seq![0u8, 0u8, 0u8]);
    }
    (config, state)
}

} // verus!
