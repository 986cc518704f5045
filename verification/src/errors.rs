//! Error kinds for the crowdfunding engine.
//!
//! Errors are categorical: each failure condition of a public operation maps
//! to exactly one kind, every validation failure is detected before any
//! mutation, and a failed operation leaves all state exactly as it was.

use vstd::prelude::*;

verus! {

/// One error kind per failure condition of the engine's operations.
#[derive(Clone, Copy, Debug, PartialEq, Eq, Structural)]
pub enum ErrorCode {
    /// The platform configuration has already been initialized.
    AlreadyInitialized,
    /// A campaign title is longer than the allowed 64 characters.
    TitleTooLong,
    /// A campaign description is longer than the allowed 512 characters.
    DescriptionTooLong,
    /// A campaign image URL is longer than the allowed 256 characters.
    ImageUrlTooLong,
    /// A campaign goal is below the minimum of one whole token.
    InvalidGoalAmount,
    /// The presented identity does not match the stored owner identity.
    Unauthorized,
    /// The supplied campaign id does not match the target record.
    CampaignNotFound,
    /// The campaign has been deactivated; donations are permanently rejected.
    InactiveCampaign,
    /// A donation is below the minimum denomination floor.
    InvalidDonationAmount,
    /// The campaign's goal has already been reached; no further donations.
    CampaignGoalActualized,
    /// A withdrawal is below the whole-unit floor.
    InvalidWithdrawalAmount,
    /// A requested withdrawal exceeds the campaign's bookkeeping balance.
    WithdrawalExceedsBalance,
    /// The value transfer failed, or the custody record would fall below its
    /// reserved minimum balance.
    InsufficientFund,
    /// The supplied platform payout identity does not match the configured one.
    InvalidPlatformAddress,
    /// A platform fee percentage outside the allowed range.
    InvalidPlatformFee,
}

} // verus!
