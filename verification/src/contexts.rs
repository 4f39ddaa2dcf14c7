//! What each transition is handed: the records it works on and the identity
//! of the caller, already established as authentic by whoever calls in.

use vstd::prelude::*;
use crate::state::{Consent, Pubkey, RewardVault, Study};

verus! {

/// The request to register a study.
#[derive(Clone, Copy, Debug, PartialEq, Eq)]
pub struct InitializeStudy {
    /// The identity under which the new study will be stored.
    pub study: Pubkey,
    /// The identity under which the new vault will be stored.
    pub reward_vault: Pubkey,
    /// The caller, who becomes the study's researcher.
    pub researcher: Pubkey,
}

/// The request to close a study.
#[derive(Clone, Debug, PartialEq, Eq)]
pub struct CloseStudy {
    /// The study to close.
    pub study: Study,
    /// The caller.
    pub researcher: Pubkey,
}

/// The request to register a participant.
#[derive(Clone, Copy, Debug, PartialEq, Eq)]
pub struct RegisterParticipant {
    /// The caller, who becomes the participant's wallet.
    pub wallet: Pubkey,
}

/// The request to consent to a study.
#[derive(Clone, Copy, Debug, PartialEq, Eq)]
pub struct GiveConsent {
    /// The caller, who becomes the consent's participant.
    pub participant: Pubkey,
    /// The identity of the study consented to.
    pub study: Pubkey,
    /// The token minted as proof of the consent, if any.
    pub mint: Option<Pubkey>,
}

/// The request to revoke a consent.
#[derive(Clone, Copy, Debug, PartialEq, Eq)]
pub struct RevokeConsent {
    /// The consent to revoke.
    pub consent: Consent,
    /// The caller.
    pub participant: Pubkey,
}

/// The request to claim a study's reward.
#[derive(Clone, Copy, Debug, PartialEq, Eq)]
pub struct ClaimReward {
    /// The consent on which the claim rests.
    pub consent: Consent,
    /// The vault to pay from.
    pub reward_vault: RewardVault,
    /// The caller.
    pub participant: Pubkey,
}

} // verus!
