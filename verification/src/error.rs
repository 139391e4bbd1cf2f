//! The reasons for which an operation is refused.

use vstd::prelude::*;

verus! {

/// Why an operation on a campaign was refused. A refused operation changes
/// nothing and moves no funds.
#[derive(Clone, Copy, Debug, PartialEq, Eq, Hash)]
pub enum ErrorCode {
    /// The payout rate given at creation is zero.
    InvalidCPM,
    /// The budget given at creation is zero.
    InvalidBudget,
    /// The validity window given at creation does not end after it starts.
    InvalidTimeRange,
    /// The like weight given at creation is zero.
    InvalidLikeWeight,
    /// The caller is not the creator the campaign was made for.
    UnauthorizedCreator,
    /// The campaign has been accepted already.
    CampaignAlreadyActive,
    /// The escrow holds nothing that could be paid out.
    NoFundsInEscrow,
    /// The campaign has not been accepted, or has ended.
    CampaignNotActive,
    /// A reported counter is below the one on record.
    MetricsCannotDecrease,
    /// The caller is not the brand that funded the campaign.
    UnauthorizedBrand,
    /// An amount or a counter does not fit in 64 bits.
    ArithmeticOverflow,
    /// The caller is not the oracle that is designated to report metrics.
    UnauthorizedOracle,
}

impl ErrorCode {
    /// The text that describes this error to a person.
    pub open spec fn text(self) -> Seq<char> {
        match self {
            ErrorCode::InvalidCPM => "CPM must be greater than 0"@,
            ErrorCode::InvalidBudget => "Budget must be greater than 0"@,
            ErrorCode::InvalidTimeRange => "End time must be after start time"@,
            ErrorCode::InvalidLikeWeight => "Like weight must be greater than 0"@,
            ErrorCode::UnauthorizedCreator => "Only the assigned creator can accept this campaign"@,
            ErrorCode::CampaignAlreadyActive => "Campaign is already active"@,
            ErrorCode::NoFundsInEscrow => "No funds in escrow"@,
            ErrorCode::CampaignNotActive => "Campaign is not active"@,
            ErrorCode::MetricsCannotDecrease => "Metrics cannot decrease"@,
            ErrorCode::UnauthorizedBrand => "Only brand can close campaign"@,
            ErrorCode::ArithmeticOverflow => "Arithmetic overflow"@,
            ErrorCode::UnauthorizedOracle => "Only the designated oracle can update metrics"@,
        }
    }

    /// The message of this error, for logs and for the caller.
    pub fn message(&self) -> (text: &'static str)
        ensures
            text@ == self.text(),
    {
        match self {
            ErrorCode::InvalidCPM => "CPM must be greater than 0",
            ErrorCode::InvalidBudget => "Budget must be greater than 0",
            ErrorCode::InvalidTimeRange => "End time must be after start time",
            ErrorCode::InvalidLikeWeight => "Like weight must be greater than 0",
            ErrorCode::UnauthorizedCreator => "Only the assigned creator can accept this campaign",
            ErrorCode::CampaignAlreadyActive => "Campaign is already active",
            ErrorCode::NoFundsInEscrow => "No funds in escrow",
            ErrorCode::CampaignNotActive => "Campaign is not active",
            ErrorCode::MetricsCannotDecrease => "Metrics cannot decrease",
            ErrorCode::UnauthorizedBrand => "Only brand can close campaign",
            ErrorCode::ArithmeticOverflow => "Arithmetic overflow",
            ErrorCode::UnauthorizedOracle => "Only the designated oracle can update metrics",
        }
    }
}

} // verus!
