//! The error taxonomy of the settlement engine.

use vstd::prelude::*;

verus! {

/// Why an engine operation was rejected. Every failure is a local,
/// non-retriable validation error surfaced synchronously to the caller;
/// a failed operation leaves no partial state change behind.
#[derive(Clone, Copy, Debug, PartialEq, Eq, Structural)]
pub enum FomoltError {
    /// Buying keys when the round is inactive.
    GameNotActive,
    /// Starting a new round while the current one is still active.
    GameStillActive,
    /// Buying keys after the timer has ended.
    TimerExpired,
    /// Claiming before the timer has ended.
    TimerNotExpired,
    /// A spendable balance, or a pool balance, is less than required.
    InsufficientFunds,
    /// A non-zero key quantity is required on the cost path.
    NoKeysToBuy,
    /// The computed payout is zero.
    NothingToClaim,
    /// A non-last-buyer tried to claim the winner prize.
    NotWinner,
    /// The winner prize was already claimed.
    WinnerAlreadyClaimed,
    /// A round transition was attempted while the winner entitlement is
    /// neither claimed nor provably absent.
    WinnerNotClaimed,
    /// The supplied referrer equals the buyer.
    CannotReferSelf,
    /// The supplied referrer does not match the stored referrer.
    ReferrerMismatch,
    /// The supplied referrer has no participant record.
    ReferrerNotRegistered,
    /// Claiming referral earnings with a zero balance.
    NoReferralEarnings,
    /// A non-admin attempted an admin-only operation.
    Unauthorized,
    /// Basis-point sums or parameter values are invalid.
    InvalidConfig,
    /// A checked arithmetic step overflowed or underflowed.
    Overflow,
    /// Registering a participant that is already registered.
    PlayerAlreadyRegistered,
    /// A participant must settle a previous round before joining a new one.
    MustClaimPreviousRound,
    /// The participant is not a member of this round.
    PlayerNotInRound,
}

} // verus!
