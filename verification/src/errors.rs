use vstd::prelude::*;

verus! {

/// Why an operation was refused.
///
/// Every public operation of the engine either completes in full or returns
/// one of these and leaves the lottery state exactly as it found it; no
/// partial credit or debit is ever visible.
#[derive(Clone, Copy, Debug, PartialEq, Eq, Structural)]
pub enum LotteryError {
    /// The lottery is locked and the lock period has not elapsed.
    LotteryLocked,
    /// The bet is below the configured minimum (instant variant).
    BetTooSmall,
    /// The purchase amount is below the configured minimum.
    InsufficientAmount,
    /// The submitted ticket numbers violate the variant's rules.
    InvalidTicketNumbers,
    /// A draw was attempted outside the variant's draw window.
    InvalidDrawTime,
    /// A draw was attempted before the minimum interval since the last one.
    DrawTooEarly,
    /// A draw already happened in this window and the lottery is locked.
    AlreadyDrawn,
    /// Purchases are rejected while the draw window is open.
    DrawWindowActive,
    /// Prize liability may only be accrued while locked, shortly after a draw.
    PrizeUpdateWindowClosed,
    /// An accrued prize amount must be strictly positive.
    InvalidPrizeAmount,
    /// The prize liability does not cover the requested settlement.
    InsufficientLiability,
    /// Accruing the prize would let the liability exceed the pooled funds.
    InsufficientPool,
    /// The declared batch total differs from the sum of the transfer legs.
    BatchTotalMismatch,
    /// A ledger computation would overflow a 64-bit counter.
    ArithmeticOverflow,
    /// The settlement authorization is older than the freshness bound.
    SignatureExpired,
    /// The account balance does not cover the requested withdrawal.
    InsufficientBalance,
    /// A required entropy source was unavailable, so no digest was derived.
    EntropyUnavailable,
}

} // verus!
