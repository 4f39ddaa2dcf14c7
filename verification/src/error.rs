//! The failures that a transition can report.

use vstd::prelude::*;

verus! {

/// Why a transition was rejected.
#[derive(Clone, Copy, Debug, PartialEq, Eq, Structural)]
pub enum CustomError {
    /// The caller is not the identity that controls the record.
    Unauthorized,
    /// The study to close is closed already.
    AlreadyClosed,
    /// The consent has been revoked or spent on a claim.
    ConsentNotActive,
    /// The vault holds nothing that could be paid out.
    StudyNotClosed,
    /// The participant consented to this study before.
    AlreadyConsented,
    /// The reward was paid out before.
    RewardAlreadyClaimed,
    /// The study no longer accepts participants.
    StudyNotOpen,
}

impl CustomError {
    /// The text shown to a caller for this failure.
    pub open spec fn spec_message(self) -> Seq<char> {
        match self {
            CustomError::Unauthorized => "Caller does not control this record"@,
            CustomError::AlreadyClosed => "Study is already closed"@,
            CustomError::ConsentNotActive => "Consent is not active"@,
            CustomError::StudyNotClosed => "Study is not closed or reward not available"@,
            CustomError::AlreadyConsented => "Already consented to this study"@,
            CustomError::RewardAlreadyClaimed => "Reward already claimed"@,
            CustomError::StudyNotOpen => "Study is not open"@,
        }
    }

    /// Returns the text shown to a caller for this failure.
    pub fn message(&self) -> (r: String)
        ensures
            r@ == self.spec_message(),
    {
        let text: &str = match self {
            CustomError::Unauthorized => "Caller does not control this record",
            CustomError::AlreadyClosed => "Study is already closed",
            CustomError::ConsentNotActive => "Consent is not active",
            CustomError::StudyNotClosed => "Study is not closed or reward not available",
            CustomError::AlreadyConsented => "Already consented to this study",
            CustomError::RewardAlreadyClaimed => "Reward already claimed",
            CustomError::StudyNotOpen => "Study is not open",
        };
        text.to_owned()
    }
}

} // verus!
