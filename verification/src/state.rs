use vstd::prelude::*;
use crate::errors::LotteryError;

verus! {

/// The mutable state of one lottery instance.
///
/// `pool_amount` is the total of the funds held; `prize_liability` is the
/// part of them already owed to winners. The engine keeps
/// `prize_liability <= pool_amount` after every operation, so the ledger can
/// never owe more than it holds.
pub struct LotteryState {
    pub locked: bool,
    pub last_draw_time: i64,
    pub last_draw_numbers: Vec<u8>,
    pub pool_amount: u64,
    pub prize_liability: u64,
    pub play_count: u64,
}

/// One leg of a batched settlement: a recipient identity and the amount
/// owed to it.
pub struct TransferInfo {
    pub recipient: [u8; 32],
    pub amount: u64,
}

/// The sum of the amounts of the given transfer legs.
pub open spec fn sum_amounts(transfers: Seq<TransferInfo>) -> int
    decreases transfers.len(),
{
    if transfers.len() == 0 {
        0
    } else {
        sum_amounts(transfers.drop_last()) + transfers.last().amount
    }
}

/// Whether a settlement of `prize_amount` plus `fee_amount` is covered by
/// the outstanding liability.
pub open spec fn settle_ok(st: LotteryState, prize_amount: u64, fee_amount: u64) -> bool {
    prize_amount + fee_amount <= st.prize_liability
}

/// The state after a covered settlement: pool and liability are both
/// debited once by the aggregate.
pub open spec fn settle_post(st: LotteryState, prize_amount: u64, fee_amount: u64) -> LotteryState {
    (LotteryState {
        pool_amount: (st.pool_amount - (prize_amount + fee_amount)) as u64,
        prize_liability: (st.prize_liability - (prize_amount + fee_amount)) as u64,
        ..st
    })
}

/// The error a refused settlement reports.
pub open spec fn settle_err(st: LotteryState, prize_amount: u64, fee_amount: u64) -> LotteryError {
    if prize_amount + fee_amount > u64::MAX {
        LotteryError::ArithmeticOverflow
    } else {
        LotteryError::InsufficientLiability
    }
}

impl LotteryState {
    /// The ledger invariant: the liability is covered by the pool, and the
    /// recorded draw time is a (non-negative) wall-clock timestamp.
    pub open spec fn wf(self) -> bool {
        &&& self.prize_liability <= self.pool_amount
        &&& 0 <= self.last_draw_time
    }

    /// Credits a ticket purchase to the pool: the pool grows by exactly
    /// `amount` or, on overflow, the state is left untouched.
    pub fn credit_pool(&mut self, amount: u64) -> (r: Result<(), LotteryError>)
        requires
            old(self).wf(),
        ensures
            final(self).wf(),
            r is Ok <==> old(self).pool_amount + amount <= u64::MAX,
            r is Ok ==> *final(self) == (LotteryState {
                pool_amount: (old(self).pool_amount + amount) as u64,
                ..*old(self)
            }),
            r is Err ==> *final(self) == *old(self) && r == Err::<(), LotteryError>(
                LotteryError::ArithmeticOverflow,
            ),
    {
        match self.pool_amount.checked_add(amount) {
            Some(new_pool) => {
                self.pool_amount = new_pool;
                Ok(())
            },
            None => Err(LotteryError::ArithmeticOverflow),
        }
    }

    /// Earmarks `amount` of the pool as owed to winners. Fails on a 64-bit
    /// overflow, and fails with `InsufficientPool` if the new liability
    /// would exceed the pooled funds; either way the state is untouched.
    pub fn accrue_liability(&mut self, amount: u64) -> (r: Result<(), LotteryError>)
        requires
            old(self).wf(),
        ensures
            final(self).wf(),
            r is Ok <==> old(self).prize_liability + amount <= old(self).pool_amount,
            r is Ok ==> *final(self) == (LotteryState {
                prize_liability: (old(self).prize_liability + amount) as u64,
                ..*old(self)
            }),
            r is Err ==> *final(self) == *old(self) && r == Err::<(), LotteryError>(
                if old(self).prize_liability + amount > u64::MAX {
                    LotteryError::ArithmeticOverflow
                } else {
                    LotteryError::InsufficientPool
                },
            ),
    {
        match self.prize_liability.checked_add(amount) {
            Some(new_liability) => {
                if new_liability > self.pool_amount {
                    Err(LotteryError::InsufficientPool)
                } else {
                    self.prize_liability = new_liability;
                    Ok(())
                }
            },
            None => Err(LotteryError::ArithmeticOverflow),
        }
    }

    /// Settles a prize: debits both the pool and the liability once by
    /// `prize_amount + fee_amount`. Fails with `InsufficientLiability` when
    /// the liability does not cover the aggregate, leaving the state
    /// untouched. Since the liability never exceeds the pool, a covered
    /// settlement can never underflow the pool.
    pub fn settle(&mut self, prize_amount: u64, fee_amount: u64) -> (r: Result<(), LotteryError>)
        requires
            old(self).wf(),
        ensures
            final(self).wf(),
            r is Ok <==> settle_ok(*old(self), prize_amount, fee_amount),
            r is Ok ==> *final(self) == settle_post(*old(self), prize_amount, fee_amount),
            r is Err ==> *final(self) == *old(self) && r == Err::<(), LotteryError>(
                settle_err(*old(self), prize_amount, fee_amount),
            ),
    {
        let total = match prize_amount.checked_add(fee_amount) {
            Some(t) => t,
            None => { return Err(LotteryError::ArithmeticOverflow) },
        };
        if total > self.prize_liability {
            return Err(LotteryError::InsufficientLiability);
        }
        self.pool_amount = self.pool_amount - total;
        self.prize_liability = self.prize_liability - total;
        Ok(())
    }
}

/// A prefix of the transfer legs never sums to more than the whole batch.
proof fn lemma_sum_take_le(transfers: Seq<TransferInfo>, i: int)
    requires
        0 <= i <= transfers.len(),
    ensures
        sum_amounts(transfers.take(i)) <= sum_amounts(transfers),
    decreases transfers.len(),
{
    if i == transfers.len() {
        assert(transfers.take(i) =~= transfers);
    } else {
        assert(transfers.drop_last().take(i) =~= transfers.take(i));
        lemma_sum_take_le(transfers.drop_last(), i);
    }
}

/// The error a refused batched settlement reports, if any: a zero or
/// uncovered total, an overflowing sum of legs, or a declared total that
/// differs from that sum.
pub open spec fn batch_err(
    st: LotteryState,
    transfers: Seq<TransferInfo>,
    total_amount: u64,
) -> Option<LotteryError> {
    if total_amount == 0 {
        Some(LotteryError::InsufficientLiability)
    } else if st.prize_liability < total_amount {
        Some(LotteryError::InsufficientLiability)
    } else if sum_amounts(transfers) > u64::MAX {
        Some(LotteryError::ArithmeticOverflow)
    } else if sum_amounts(transfers) != total_amount {
        Some(LotteryError::BatchTotalMismatch)
    } else {
        None
    }
}

/// Validates and books a batched settlement: the declared total must be
/// positive, covered by the liability, and equal to the sum of the
/// individual legs; only then are pool and liability debited, exactly once,
/// by the aggregate. A refused batch leaves the ledger untouched, so no
/// partial per-recipient failure can ever be visible in it.
pub fn transfer_token(st: &mut LotteryState, transfers: &Vec<TransferInfo>, total_amount: u64) -> (r:
    Result<(), LotteryError>)
    requires
        old(st).wf(),
    ensures
        final(st).wf(),
        r is Ok <==> batch_err(*old(st), transfers@, total_amount) is None,
        r is Ok ==> *final(st) == settle_post(*old(st), total_amount, 0),
        r matches Err(e) ==> *final(st) == *old(st) && Some(e) == batch_err(
            *old(st),
            transfers@,
            total_amount,
        ),
{
    if total_amount == 0 {
        return Err(LotteryError::InsufficientLiability);
    }
    if st.prize_liability < total_amount {
        return Err(LotteryError::InsufficientLiability);
    }
    let mut sum: u64 = 0;
    let n = transfers.len();
    for i in 0..n
        invariant
            n == transfers@.len(),
            sum == sum_amounts(transfers@.take(i as int)),
            *st == *old(st),
            old(st).wf(),
            total_amount > 0,
            old(st).prize_liability >= total_amount,
    {
        proof {
            assert(transfers@.take(i + 1).drop_last() =~= transfers@.take(i as int));
            assert(transfers@.take(i + 1).last() == transfers@[i as int]);
        }
        sum = match sum.checked_add(transfers[i].amount) {
            Some(s) => s,
            None => {
                proof {
                    lemma_sum_take_le(transfers@, i + 1);
                }
                return Err(LotteryError::ArithmeticOverflow);
            },
        };
    }
    proof {
        assert(transfers@.take(n as int) =~= transfers@);
    }
    if sum != total_amount {
        return Err(LotteryError::BatchTotalMismatch);
    }
    let r = st.settle(total_amount, 0);
    proof {
        assert(r is Ok);
    }
    r
}

/// The balance check of a native-token withdrawal: the rent-exempt minimum
/// stays behind on the account, and the requested amount must be covered by
/// the remainder. Returns the balance available for withdrawal.
pub fn check_sol_withdrawal(lamports: u64, rent_balance: u64, amount: u64) -> (r: Result<
    u64,
    LotteryError,
>)
    ensures
        r is Ok <==> rent_balance <= lamports && amount <= lamports - rent_balance,
        r matches Ok(available) ==> available as int == lamports - rent_balance,
        r matches Err(e) ==> e == LotteryError::InsufficientBalance,
{
    let available_balance = match lamports.checked_sub(rent_balance) {
        Some(v) => v,
        None => { return Err(LotteryError::InsufficientBalance) },
    };
    if amount > available_balance {
        return Err(LotteryError::InsufficientBalance);
    }
    Ok(available_balance)
}

/// Settlement is not idempotent, by design: a settlement that exhausts the
/// liability is accepted once, and repeating it with the same amounts is
/// refused with `InsufficientLiability`.
pub proof fn lemma_settle_exhausts_liability(st: LotteryState, prize_amount: u64, fee_amount: u64)
    requires
        st.wf(),
        prize_amount + fee_amount == st.prize_liability,
        prize_amount + fee_amount > 0,
    ensures
        settle_ok(st, prize_amount, fee_amount),
        !settle_ok(settle_post(st, prize_amount, fee_amount), prize_amount, fee_amount),
        settle_err(settle_post(st, prize_amount, fee_amount), prize_amount, fee_amount)
            == LotteryError::InsufficientLiability,
{
}

} // verus!
