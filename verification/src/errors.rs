//! The reasons for which an instruction is refused.
//!
//! A refused instruction changes nothing: every function that returns one of
//! these leaves the records it was given as they were.

use vstd::prelude::*;

verus! {

#[derive(Clone, Copy, Debug, PartialEq, Eq, Hash, Structural)]
pub enum ErrorCode {
    /// The owner has not been silent for longer than the inactivity period.
    OwnerStillActive,
    /// The record has been paid out before.
    AlreadyClaimed,
    /// A batch names more than ten recipients.
    TooManyTransfers,
    /// The caller, or an account it handed in, is not the party the record names.
    Unauthorized,
    /// A token account holds another asset than the one asked for.
    InvalidMint,
    /// The inactivity period is not positive.
    InvalidInactivityPeriod,
    /// A batch has as many recipients as amounts, or it is refused with this.
    MismatchedArrays,
    /// A batch names a recipient for which no account was handed in.
    InsufficientAccounts,
    /// More heirs than the owner's plan allows.
    TooManyHeirs,
    /// A wallet needs at least one heir.
    NoHeirsProvided,
    /// The percentages of the heirs do not add up to a hundred, or a single
    /// percentage is outside 1..=100.
    InvalidAllocation,
    /// The wallet has been distributed before.
    AlreadyExecuted,
    /// The platform fee asked for is above the cap.
    FeeTooHigh,
    /// The treasury holds less than the amount to withdraw.
    InsufficientTreasuryBalance,
    /// The wallet holds less than the amount to withdraw.
    InsufficientBalance,
    /// Only premium owners choose their own inactivity period.
    CustomInactivityNotAllowed,
    /// The caller is not the platform's admin.
    NotPlatformAdmin,
    /// The caller is not the admin that the record names.
    UnauthorizedAdmin,
    /// A partner's share of the fees is above one half.
    InvalidFeeShare,
    /// A partner's name is longer than thirty-two bytes.
    PartnerNameTooLong,
    /// A notification's message is longer than two hundred bytes.
    MessageTooLong,
    /// More than twenty token allocations for one wallet.
    TooManyTokens,
    /// The platform is paused.
    PlatformPaused,
    /// The platform has been paused for longer than allowed.
    PauseDurationExceeded,
    /// The feature is for premium owners.
    PremiumRequired,
    /// The wallet has ten heirs already.
    MaxHeirsReached,
    /// The wallet names this heir already.
    HeirAlreadyExists,
    /// The wallet does not name this heir.
    HeirNotFound,
    /// The amount to escrow is zero.
    InvalidAmount,
}

} // verus!
