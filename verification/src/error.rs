//! Why an operation was rejected.

use vstd::prelude::*;

verus! {

/// The reason for which an operation was rejected. A rejected operation changes nothing.
#[derive(Clone, Copy, Debug, PartialEq, Eq, Structural)]
pub enum OracleError {
    QuestionTooLong,
    AnswerTooLong,
    InvalidReward,
    InvalidBond,
    InvalidExpiry,
    ChallengePeriodTooShort,
    ChallengePeriodTooLong,
    InvalidStatus,
    RequestNotExpired,
    InvalidAnswer,
    NoProposal,
    NoProposer,
    NoDisputer,
    ChallengePeriodExpired,
    ChallengePeriodNotExpired,
    Unauthorized,
    /// No operation gives this error: a cancellation in the wrong status is rejected with
    /// `InvalidStatus`, as every other operation is.
    CannotCancel,
    /// A balance is smaller than the amount to be taken from it.
    InsufficientFunds,
    /// A balance or a counter would exceed the largest value it can hold.
    ArithmeticOverflow,
}

impl OracleError {
    /// The words that describe the error.
    pub open spec fn message_text(self) -> Seq<char> {
        match self {
            OracleError::QuestionTooLong => "Question too long (max 500 characters)"@,
            OracleError::AnswerTooLong => "Answer too long (max 200 characters)"@,
            OracleError::InvalidReward => "Invalid reward amount"@,
            OracleError::InvalidBond => "Invalid bond amount"@,
            OracleError::InvalidExpiry => "Invalid expiry timestamp"@,
            OracleError::ChallengePeriodTooShort => "Challenge period too short (min 1 hour)"@,
            OracleError::ChallengePeriodTooLong => "Challenge period too long (max 7 days)"@,
            OracleError::InvalidStatus => "Invalid request status"@,
            OracleError::RequestNotExpired => "Request has not expired yet"@,
            OracleError::InvalidAnswer => "Invalid answer format"@,
            OracleError::NoProposal => "No proposal exists"@,
            OracleError::NoProposer => "No proposer exists"@,
            OracleError::NoDisputer => "No disputer exists"@,
            OracleError::ChallengePeriodExpired => "Challenge period has expired"@,
            OracleError::ChallengePeriodNotExpired => "Challenge period has not expired"@,
            OracleError::Unauthorized => "Unauthorized"@,
            OracleError::CannotCancel => "Cannot cancel request"@,
            OracleError::InsufficientFunds => "Insufficient funds"@,
            OracleError::ArithmeticOverflow => "Arithmetic overflow"@,
        }
    }

    /// The words that describe the error.
    pub fn message(&self) -> (r: &'static str)
        ensures
            r@ == self.message_text(),
    {
        match self {
            OracleError::QuestionTooLong => "Question too long (max 500 characters)",
            OracleError::AnswerTooLong => "Answer too long (max 200 characters)",
            OracleError::InvalidReward => "Invalid reward amount",
            OracleError::InvalidBond => "Invalid bond amount",
            OracleError::InvalidExpiry => "Invalid expiry timestamp",
            OracleError::ChallengePeriodTooShort => "Challenge period too short (min 1 hour)",
            OracleError::ChallengePeriodTooLong => "Challenge period too long (max 7 days)",
            OracleError::InvalidStatus => "Invalid request status",
            OracleError::RequestNotExpired => "Request has not expired yet",
            OracleError::InvalidAnswer => "Invalid answer format",
            OracleError::NoProposal => "No proposal exists",
            OracleError::NoProposer => "No proposer exists",
            OracleError::NoDisputer => "No disputer exists",
            OracleError::ChallengePeriodExpired => "Challenge period has expired",
            OracleError::ChallengePeriodNotExpired => "Challenge period has not expired",
            OracleError::Unauthorized => "Unauthorized",
            OracleError::CannotCancel => "Cannot cancel request",
            OracleError::InsufficientFunds => "Insufficient funds",
            OracleError::ArithmeticOverflow => "Arithmetic overflow",
        }
    }
}

} // verus!
