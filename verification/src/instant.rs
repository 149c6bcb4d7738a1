use vstd::prelude::*;
use crate::errors::LotteryError;
use crate::outcome::{
    get_number, instant_number, instant_prize, instant_win_multiplier, reduced_value,
};
use crate::codec::read_u64_le;
use crate::rng::{derive_instant_digest, instant_seed, sha256_of, ClockInfo};
use crate::state::{settle_post, LotteryState};

verus! {

/// The immutable configuration of an instant lottery instance: the minimum
/// bet, the cumulative weight boundaries of the five prize tiers, and the
/// payout multiplier of each tier.
pub struct InstantConfig {
    pub authority: [u8; 32],
    pub token_mint: [u8; 32],
    pub min_bet: u64,
    pub total_weight: u32,
    pub weight_ranges: [u32; 5],
    pub multipliers: [u8; 5],
}

impl InstantConfig {
    /// The reduction modulus must not be zero, or no number could be drawn.
    pub open spec fn wf(self) -> bool {
        self.total_weight > 0
    }
}

/// What an accepted instant play produced: the three drawn tier numbers,
/// the multiplier (0 for a losing play), and the prize owed (0 for a losing
/// play).
#[derive(Debug)]
pub struct PlayOutcome {
    pub numbers: [u8; 3],
    pub win_multiplier: u8,
    pub prize: u64,
}

/// The digest of one instant play, derived from its entropy sources.
pub open spec fn instant_digest(
    blockhash: Seq<u8>,
    player: Seq<u8>,
    clock: ClockInfo,
    uuid: Seq<u8>,
) -> Seq<u8> {
    sha256_of(instant_seed(blockhash, player, clock.slot, clock.unix_timestamp, uuid))
}

/// The three tier numbers of one instant play: each is drawn from its own
/// 8-byte digest slice, reduced modulo the total weight and located among
/// the boundaries.
pub open spec fn play_numbers(digest: Seq<u8>, cfg: InstantConfig) -> Seq<u8> {
    seq![
        instant_number(digest, 0, cfg.total_weight, cfg.weight_ranges@) as u8,
        instant_number(digest, 1, cfg.total_weight, cfg.weight_ranges@) as u8,
        instant_number(digest, 2, cfg.total_weight, cfg.weight_ranges@) as u8,
    ]
}

/// The multiplier of one instant play: the configured multiplier of the
/// common tier when all three numbers agree, and 0 otherwise.
pub open spec fn play_multiplier(digest: Seq<u8>, cfg: InstantConfig) -> int {
    instant_win_multiplier(digest, cfg.total_weight, cfg.weight_ranges@, cfg.multipliers@)
}

/// The error a refused instant play reports, if any.
pub open spec fn play_err(
    cfg: InstantConfig,
    st: LotteryState,
    amount: u64,
    clock: Option<ClockInfo>,
    blockhash: Seq<u8>,
    player: Seq<u8>,
    uuid: Seq<u8>,
) -> Option<LotteryError> {
    if st.locked {
        Some(LotteryError::LotteryLocked)
    } else if amount < cfg.min_bet {
        Some(LotteryError::BetTooSmall)
    } else if st.pool_amount + amount > u64::MAX {
        Some(LotteryError::ArithmeticOverflow)
    } else if st.play_count + 1 > u64::MAX {
        Some(LotteryError::ArithmeticOverflow)
    } else if clock is None {
        Some(LotteryError::EntropyUnavailable)
    } else {
        let digest = instant_digest(blockhash, player, clock.unwrap(), uuid);
        let m = play_multiplier(digest, cfg);
        if m == 0 {
            None
        } else if amount * m > u64::MAX {
            Some(LotteryError::ArithmeticOverflow)
        } else if amount * m * 101 > u64::MAX {
            Some(LotteryError::ArithmeticOverflow)
        } else if st.prize_liability + instant_prize(amount, m) > u64::MAX {
            Some(LotteryError::ArithmeticOverflow)
        } else if st.prize_liability + instant_prize(amount, m) > st.pool_amount + amount {
            Some(LotteryError::InsufficientPool)
        } else {
            None
        }
    }
}

/// The state after an accepted instant play: the pool grows by exactly the
/// bet, the play count by one, and a winning play accrues its prize as
/// liability.
pub open spec fn play_post(
    cfg: InstantConfig,
    st: LotteryState,
    amount: u64,
    digest: Seq<u8>,
) -> LotteryState {
    let m = play_multiplier(digest, cfg);
    (LotteryState {
        pool_amount: (st.pool_amount + amount) as u64,
        play_count: (st.play_count + 1) as u64,
        prize_liability: if m > 0 {
            (st.prize_liability + instant_prize(amount, m)) as u64
        } else {
            st.prize_liability
        },
        ..st
    })
}

/// Plays one instant round: the bet is credited to the pool, a digest is
/// derived from the play's own entropy, three tier numbers are drawn, and a
/// play whose three numbers agree wins its tier's multiplier — the prize,
/// the bet times the multiplier with a 1% bonus (truncated), is accrued as
/// liability. Any refusal leaves the state untouched.
pub fn play(
    cfg: &InstantConfig,
    st: &mut LotteryState,
    amount: u64,
    recent_blockhash: &Vec<u8>,
    player: &Vec<u8>,
    clock: &Option<ClockInfo>,
    uuid: &Vec<u8>,
) -> (r: Result<PlayOutcome, LotteryError>)
    requires
        cfg.wf(),
        old(st).wf(),
        clock matches Some(c) ==> c.unix_timestamp >= 0,
    ensures
        final(st).wf(),
        r is Ok <==> play_err(*cfg, *old(st), amount, *clock, recent_blockhash@, player@, uuid@)
            is None,
        r matches Ok(out) ==> {
            let digest = instant_digest(recent_blockhash@, player@, clock.unwrap(), uuid@);
            &&& out.numbers@ == play_numbers(digest, *cfg)
            &&& out.win_multiplier as int == play_multiplier(digest, *cfg)
            &&& out.prize as int == (if play_multiplier(digest, *cfg) > 0 {
                instant_prize(amount, play_multiplier(digest, *cfg))
            } else {
                0
            })
            &&& *final(st) == play_post(*cfg, *old(st), amount, digest)
        },
        r matches Err(e) ==> *final(st) == *old(st) && Some(e) == play_err(
            *cfg,
            *old(st),
            amount,
            *clock,
            recent_blockhash@,
            player@,
            uuid@,
        ),
{
    if st.locked {
        return Err(LotteryError::LotteryLocked);
    }
    if amount < cfg.min_bet {
        return Err(LotteryError::BetTooSmall);
    }
    let new_pool = match st.pool_amount.checked_add(amount) {
        Some(p) => p,
        None => { return Err(LotteryError::ArithmeticOverflow) },
    };
    let new_play_count = match st.play_count.checked_add(1) {
        Some(p) => p,
        None => { return Err(LotteryError::ArithmeticOverflow) },
    };
    let c = match clock {
        Some(c) => *c,
        None => { return Err(LotteryError::EntropyUnavailable) },
    };
    let digest = derive_instant_digest(recent_blockhash, player, c.slot, c.unix_timestamp, uuid);
    let total_weight = cfg.total_weight as u64;
    let r0 = read_u64_le(&digest, 0) % total_weight;
    let r1 = read_u64_le(&digest, 8) % total_weight;
    let r2 = read_u64_le(&digest, 16) % total_weight;
    let n0 = get_number(r0, &cfg.weight_ranges);
    let n1 = get_number(r1, &cfg.weight_ranges);
    let n2 = get_number(r2, &cfg.weight_ranges);
    proof {
        assert(r0 == reduced_value(digest@, 0, cfg.total_weight));
        assert(r1 == reduced_value(digest@, 1, cfg.total_weight));
        assert(r2 == reduced_value(digest@, 2, cfg.total_weight));
    }
    let numbers: [u8; 3] = [n0, n1, n2];
    proof {
        assert(numbers@ =~= play_numbers(digest@, *cfg));
    }
    let win_multiplier: u8 = if n0 == n1 && n1 == n2 {
        cfg.multipliers[(n0 - 1) as usize]
    } else {
        0
    };
    proof {
        assert(win_multiplier as int == play_multiplier(digest@, *cfg));
    }
    if win_multiplier > 0 {
        let step1 = match amount.checked_mul(win_multiplier as u64) {
            Some(v) => v,
            None => { return Err(LotteryError::ArithmeticOverflow) },
        };
        let step2 = match step1.checked_mul(101) {
            Some(v) => v,
            None => { return Err(LotteryError::ArithmeticOverflow) },
        };
        let total_prize = step2 / 100;
        let new_liability = match st.prize_liability.checked_add(total_prize) {
            Some(v) => v,
            None => { return Err(LotteryError::ArithmeticOverflow) },
        };
        if new_liability > new_pool {
            return Err(LotteryError::InsufficientPool);
        }
        st.pool_amount = new_pool;
        st.play_count = new_play_count;
        st.prize_liability = new_liability;
        Ok(PlayOutcome { numbers, win_multiplier, prize: total_prize })
    } else {
        st.pool_amount = new_pool;
        st.play_count = new_play_count;
        Ok(PlayOutcome { numbers, win_multiplier: 0, prize: 0 })
    }
}

/// The error a refused claim reports, if any.
pub open spec fn claim_err(
    st: LotteryState,
    now: i64,
    timestamp: i64,
    prize_amount: u64,
    fee_amount: u64,
) -> Option<LotteryError> {
    if st.prize_liability == 0 {
        Some(LotteryError::InsufficientLiability)
    } else if now - timestamp >= 300 {
        Some(LotteryError::SignatureExpired)
    } else if prize_amount + fee_amount > u64::MAX {
        Some(LotteryError::ArithmeticOverflow)
    } else if prize_amount + fee_amount > st.prize_liability {
        Some(LotteryError::InsufficientLiability)
    } else {
        None
    }
}

/// Pays out a claimed prize and its fee: both pool and liability are
/// debited once by `prize_amount + fee_amount`. The claim's authorization
/// must be fresh (younger than 300 seconds) and the liability must cover
/// the aggregate; a refused claim leaves the state untouched.
pub fn claim_prize(
    st: &mut LotteryState,
    prize_amount: u64,
    fee_amount: u64,
    now: i64,
    timestamp: i64,
) -> (r: Result<(), LotteryError>)
    requires
        old(st).wf(),
        now >= 0,
        timestamp >= 0,
    ensures
        final(st).wf(),
        r is Ok <==> claim_err(*old(st), now, timestamp, prize_amount, fee_amount) is None,
        r is Ok ==> *final(st) == settle_post(*old(st), prize_amount, fee_amount),
        r matches Err(e) ==> *final(st) == *old(st) && Some(e) == claim_err(
            *old(st),
            now,
            timestamp,
            prize_amount,
            fee_amount,
        ),
{
    if st.prize_liability == 0 {
        return Err(LotteryError::InsufficientLiability);
    }
    if now - timestamp >= 300 {
        return Err(LotteryError::SignatureExpired);
    }
    st.settle(prize_amount, fee_amount)
}

/// Overwrites the admin-tunable fields: each given field is replaced, each
/// absent one kept. A new total weight must be positive, or later plays
/// could not reduce their digest slices.
pub fn set_locked(
    cfg: &mut InstantConfig,
    st: &mut LotteryState,
    locked: Option<bool>,
    total_weight: Option<u32>,
    weight_ranges: Option<[u32; 5]>,
    multipliers: Option<[u8; 5]>,
) -> (r: Result<(), LotteryError>)
    requires
        old(cfg).wf(),
        old(st).wf(),
        total_weight matches Some(w) ==> w > 0,
    ensures
        final(cfg).wf(),
        final(st).wf(),
        r is Ok,
        final(st).locked == (if locked is Some {
            locked.unwrap()
        } else {
            old(st).locked
        }),
        final(st).last_draw_time == old(st).last_draw_time,
        final(st).last_draw_numbers == old(st).last_draw_numbers,
        final(st).pool_amount == old(st).pool_amount,
        final(st).prize_liability == old(st).prize_liability,
        final(st).play_count == old(st).play_count,
        final(cfg).total_weight == (if total_weight is Some {
            total_weight.unwrap()
        } else {
            old(cfg).total_weight
        }),
        final(cfg).weight_ranges@ == (if weight_ranges is Some {
            weight_ranges.unwrap()@
        } else {
            old(cfg).weight_ranges@
        }),
        final(cfg).multipliers@ == (if multipliers is Some {
            multipliers.unwrap()@
        } else {
            old(cfg).multipliers@
        }),
        final(cfg).authority == old(cfg).authority,
        final(cfg).token_mint == old(cfg).token_mint,
        final(cfg).min_bet == old(cfg).min_bet,
{
    if let Some(lock_status) = locked {
        st.locked = lock_status;
    }
    if let Some(weight) = total_weight {
        cfg.total_weight = weight;
    }
    if let Some(ranges) = weight_ranges {
        cfg.weight_ranges = ranges;
    }
    if let Some(mults) = multipliers {
        cfg.multipliers = mults;
    }
    Ok(())
}

/// Creates an instant lottery instance with the preset tier boundaries and
/// multipliers: unlocked, with an empty ledger.
pub fn initialize(authority: [u8; 32], token_mint: [u8; 32], min_bet: u64) -> (r: (
    InstantConfig,
    LotteryState,
))
    ensures
        r.0.wf(),
        r.1.wf(),
        r.0.authority@ == authority@,
        r.0.token_mint@ == token_mint@,
        r.0.min_bet == min_bet,
        r.0.total_weight == 10000,
        r.0.weight_ranges@ =~= seq![4660u32, 7627u32, 8858u32, 9578u32, 10000u32],
        r.0.multipliers@ =~= seq![2u8, 5u8, 10u8, 50u8, 100u8],
        r.1.locked == false,
        r.1.last_draw_time == 0,
        r.1.last_draw_numbers@ == Seq::<u8>::empty(),
        r.1.pool_amount == 0,
        r.1.prize_liability == 0,
        r.1.play_count == 0,
{
    let config = InstantConfig {
        authority,
        token_mint,
        min_bet,
        total_weight: 10000,
        weight_ranges: [4660, 7627, 8858, 9578, 10000],
        multipliers: [2, 5, 10, 50, 100],
    };
    let state = LotteryState {
        locked: false,
        last_draw_time: 0,
        last_draw_numbers: Vec::new(),
        pool_amount: 0,
        prize_liability: 0,
        play_count: 0,
    };
    (config, state)
}

} // verus!
