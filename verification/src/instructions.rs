//! The six transitions of the ledger.
//!
//! Each transition checks the caller first, then the state of the records,
//! and changes a record only once every check has passed. What a transition
//! returns and what it leaves behind are given by a pair of spec functions,
//! `*_result` and `*_effect`, over the request as it was before the call.
//!
//! Two checks are deliberately absent: consent can be given to a study that
//! is closed, and a claim judges a study payable by the vault's balance
//! alone, whatever the study's status. Callers who need either check must
//! make it themselves.

use vstd::prelude::*;
use crate::contexts::{
    ClaimReward, CloseStudy, GiveConsent, InitializeStudy, RegisterParticipant, RevokeConsent,
};
use crate::clock::{unix_timestamp_now, ClockError};
use crate::error::CustomError;
use crate::guard::{authorize, is_controller};
use crate::state::{Consent, Participant, RewardVault, Study, StudyStatus};

verus! {

/// The study that `initialize_study` creates: open, owned by the caller and
/// linked to the new vault.
pub open spec fn new_study(ctx: InitializeStudy, ipfs_cid: String, reward_amount: u64) -> Study {
    Study {
        researcher: ctx.researcher,
        ipfs_cid,
        reward_vault: ctx.reward_vault,
        reward_amount,
        status: StudyStatus::Open,
    }
}

/// The vault that `initialize_study` creates: empty and linked to the new
/// study.
pub open spec fn new_reward_vault(ctx: InitializeStudy) -> RewardVault {
    RewardVault { study: ctx.study, balance: 0 }
}

/// Registers a study together with its vault.
///
/// The vault starts empty whatever `reward_amount` is: the amount is only
/// recorded as what the researcher intends to fund.
pub fn initialize_study(ctx: &InitializeStudy, ipfs_cid: String, reward_amount: u64) -> (r: (
    Study,
    RewardVault,
))
    ensures
        r.0 == new_study(*ctx, ipfs_cid, reward_amount),
        r.1 == new_reward_vault(*ctx),
{
    let study = Study {
        researcher: ctx.researcher,
        ipfs_cid,
        reward_vault: ctx.reward_vault,
        reward_amount,
        status: StudyStatus::Open,
    };
    let reward_vault = RewardVault { study: ctx.study, balance: 0 };
    (study, reward_vault)
}

/// What `close_study` returns on `ctx`.
pub open spec fn close_study_result(ctx: CloseStudy) -> Result<(), CustomError> {
    if !is_controller(ctx.researcher, ctx.study.researcher) {
        Err(CustomError::Unauthorized)
    } else if ctx.study.status != StudyStatus::Open {
        Err(CustomError::AlreadyClosed)
    } else {
        Ok(())
    }
}

/// What `close_study` leaves of `ctx`.
pub open spec fn close_study_effect(ctx: CloseStudy) -> CloseStudy {
    if close_study_result(ctx) is Ok {
        CloseStudy { study: Study { status: StudyStatus::Closed, ..ctx.study }, ..ctx }
    } else {
        ctx
    }
}

/// Closes a study for good. Only its researcher may do so, and only once.
pub fn close_study(ctx: &mut CloseStudy) -> (r: Result<(), CustomError>)
    ensures
        r == close_study_result(*old(ctx)),
        *final(ctx) == close_study_effect(*old(ctx)),
        r is Ok ==> old(ctx).study.is_open() && final(ctx).study.is_closed(),
        r is Err ==> *final(ctx) == *old(ctx),
        old(ctx).study.is_closed() ==> final(ctx).study.is_closed(),
{
    match authorize(&ctx.researcher, &ctx.study.researcher) {
        Err(e) => {
            return Err(e);
        },
        Ok(_) => {},
    }
    if !ctx.study.is_open() {
        return Err(CustomError::AlreadyClosed);
    }
    ctx.study.status = StudyStatus::Closed;
    Ok(())
}

/// The participant that `register_participant` creates.
pub open spec fn new_participant(
    ctx: RegisterParticipant,
    ipfs_cid: String,
    credentials_cid: Option<String>,
) -> Participant {
    Participant { wallet: ctx.wallet, ipfs_cid, credentials_cid }
}

/// Registers the caller as a participant.
///
/// Nothing is checked against earlier registrations: a wallet that
/// registers twice gets two independent records.
pub fn register_participant(
    ctx: &RegisterParticipant,
    ipfs_cid: String,
    credentials_cid: Option<String>,
) -> (r: Participant)
    ensures
        r == new_participant(*ctx, ipfs_cid, credentials_cid),
{
    Participant { wallet: ctx.wallet, ipfs_cid, credentials_cid }
}

/// The consent that `give_consent_at` creates at time `unix_timestamp`.
pub open spec fn new_consent(ctx: GiveConsent, unix_timestamp: i64) -> Consent {
    Consent {
        participant: ctx.participant,
        study: ctx.study,
        timestamp: unix_timestamp,
        active: true,
        mint: ctx.mint,
    }
}

/// Records the caller's consent to a study, given at `unix_timestamp`.
///
/// The study's status is not consulted, and nothing is checked against
/// earlier consents of the same participant to the same study.
pub fn give_consent_at(ctx: &GiveConsent, unix_timestamp: i64) -> (r: Consent)
    ensures
        r == new_consent(*ctx, unix_timestamp),
        r.is_active(),
        !r.is_revoked(),
{
    Consent {
        participant: ctx.participant,
        study: ctx.study,
        timestamp: unix_timestamp,
        active: true,
        mint: ctx.mint,
    }
}

/// Records the caller's consent to a study, dated by the chain's clock.
///
/// The only failure is that of the clock, whose error is handed on as it
/// came. Whatever the clock gives, the outcome is the one that
/// `give_consent_with` returns for that reading.
pub fn give_consent(ctx: &GiveConsent) -> (r: Result<Consent, ClockError>)
    ensures
        r matches Ok(consent) ==> consent == new_consent(*ctx, consent.timestamp)
            && consent.is_active(),
{
    give_consent_with(ctx, unix_timestamp_now())
}

/// What `give_consent_with` makes of the clock's `reading`: the consent
/// dated by the time that was read, or the clock's error as it came.
pub open spec fn dated_consent(
    ctx: GiveConsent,
    reading: Result<i64, anchor_lang::prelude::ProgramError>,
) -> Result<Consent, ClockError> {
    match reading {
        Ok(unix_timestamp) => Ok(new_consent(ctx, unix_timestamp)),
        Err(source) => Err(ClockError { source }),
    }
}

/// Records the caller's consent to a study, given what reading the clock
/// gave: a consent dated by the time read, or the clock's own error where
/// the reading failed.
pub fn give_consent_with(
    ctx: &GiveConsent,
    reading: Result<i64, anchor_lang::prelude::ProgramError>,
) -> (r: Result<Consent, ClockError>)
    ensures
        r == dated_consent(*ctx, reading),
{
    match reading {
        Ok(unix_timestamp) => Ok(give_consent_at(ctx, unix_timestamp)),
        Err(source) => Err(ClockError { source }),
    }
}

/// What `revoke_consent` returns on `ctx`.
pub open spec fn revoke_consent_result(ctx: RevokeConsent) -> Result<(), CustomError> {
    if !is_controller(ctx.participant, ctx.consent.participant) {
        Err(CustomError::Unauthorized)
    } else if !ctx.consent.active {
        Err(CustomError::ConsentNotActive)
    } else {
        Ok(())
    }
}

/// What `revoke_consent` leaves of `ctx`.
pub open spec fn revoke_consent_effect(ctx: RevokeConsent) -> RevokeConsent {
    if revoke_consent_result(ctx) is Ok {
        RevokeConsent { consent: Consent { active: false, ..ctx.consent }, ..ctx }
    } else {
        ctx
    }
}

/// Revokes a consent for good. Only its participant may do so, and only
/// while it is active.
pub fn revoke_consent(ctx: &mut RevokeConsent) -> (r: Result<(), CustomError>)
    ensures
        r == revoke_consent_result(*old(ctx)),
        *final(ctx) == revoke_consent_effect(*old(ctx)),
        r is Ok ==> old(ctx).consent.is_active() && final(ctx).consent.is_revoked(),
        r is Err ==> *final(ctx) == *old(ctx),
        old(ctx).consent.is_revoked() ==> final(ctx).consent.is_revoked(),
{
    match authorize(&ctx.participant, &ctx.consent.participant) {
        Err(e) => {
            return Err(e);
        },
        Ok(_) => {},
    }
    if !ctx.consent.is_active() {
        return Err(CustomError::ConsentNotActive);
    }
    ctx.consent.active = false;
    Ok(())
}

/// What `claim_reward` returns on `ctx`: the amount to pay out, or why
/// nothing is paid.
pub open spec fn claim_reward_result(ctx: ClaimReward) -> Result<u64, CustomError> {
    if !is_controller(ctx.participant, ctx.consent.participant) {
        Err(CustomError::Unauthorized)
    } else if !ctx.consent.active {
        Err(CustomError::ConsentNotActive)
    } else if ctx.reward_vault.balance == 0 {
        Err(CustomError::StudyNotClosed)
    } else {
        Ok(ctx.reward_vault.balance)
    }
}

/// What `claim_reward` leaves of `ctx`.
pub open spec fn claim_reward_effect(ctx: ClaimReward) -> ClaimReward {
    if claim_reward_result(ctx) is Ok {
        ClaimReward {
            consent: Consent { active: false, ..ctx.consent },
            reward_vault: RewardVault { balance: 0, ..ctx.reward_vault },
            ..ctx
        }
    } else {
        ctx
    }
}

/// Claims the whole balance of a vault for the consent's participant.
///
/// On success the vault is empty and the consent spent before the amount is
/// returned, so that whoever moves the funds afterwards, and however often
/// that step is retried, the ledger never owes the amount twice.
pub fn claim_reward(ctx: &mut ClaimReward) -> (r: Result<u64, CustomError>)
    ensures
        r == claim_reward_result(*old(ctx)),
        *final(ctx) == claim_reward_effect(*old(ctx)),
        r is Ok ==> r == Ok::<u64, CustomError>(old(ctx).reward_vault.balance)
            && final(ctx).reward_vault.balance == 0 && final(ctx).consent.is_revoked(),
        r is Err ==> *final(ctx) == *old(ctx),
        old(ctx).consent.is_revoked() ==> final(ctx).consent.is_revoked(),
        final(ctx).reward_vault.balance <= old(ctx).reward_vault.balance,
{
    match authorize(&ctx.participant, &ctx.consent.participant) {
        Err(e) => {
            return Err(e);
        },
        Ok(_) => {},
    }
    if !ctx.consent.is_active() {
        return Err(CustomError::ConsentNotActive);
    }
    if !ctx.reward_vault.has_balance() {
        return Err(CustomError::StudyNotClosed);
    }
    let amount: u64 = ctx.reward_vault.balance;
    ctx.reward_vault.balance = 0;
    ctx.consent.active = false;
    Ok(amount)
}

} // verus!
