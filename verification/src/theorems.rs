//! What holds of the ledger as a whole, proved from the transitions'
//! definitions.

use vstd::prelude::*;
use crate::contexts::{
    ClaimReward, CloseStudy, GiveConsent, InitializeStudy, RegisterParticipant, RevokeConsent,
};
use crate::error::CustomError;
use crate::guard::is_controller;
use crate::instructions::{
    claim_reward_effect, claim_reward_result, close_study_effect, close_study_result, new_consent,
    new_participant, new_study, revoke_consent_effect, revoke_consent_result,
};
use crate::state::{Consent, Pubkey, RewardVault, Study};

verus! {

/// `post` is what some attempt to close `pre`, by any caller, leaves of it.
pub open spec fn study_step(pre: Study, post: Study) -> bool {
    exists|caller: Pubkey|
        post == (#[trigger] close_study_effect(CloseStudy { study: pre, researcher: caller })).study
}

/// Each study in `history` comes from the one before it by one transition.
pub open spec fn study_history(history: Seq<Study>) -> bool {
    forall|i: int|
        0 <= i < history.len() - 1 ==> study_step(#[trigger] history[i], history[i + 1])
}

/// `post` is what some attempt to revoke `pre`, or to claim on it against
/// any vault, by any caller, leaves of it.
pub open spec fn consent_step(pre: Consent, post: Consent) -> bool {
    ||| exists|caller: Pubkey|
        post == (#[trigger] revoke_consent_effect(
            RevokeConsent { consent: pre, participant: caller },
        )).consent
    ||| exists|caller: Pubkey, vault: RewardVault|
        post == (#[trigger] claim_reward_effect(
            ClaimReward { consent: pre, reward_vault: vault, participant: caller },
        )).consent
}

/// Each consent in `history` comes from the one before it by one transition.
pub open spec fn consent_history(history: Seq<Consent>) -> bool {
    forall|i: int|
        0 <= i < history.len() - 1 ==> consent_step(#[trigger] history[i], history[i + 1])
}

/// `post` is what some claim against `pre`, on any consent and by any
/// caller, leaves of it.
pub open spec fn vault_step(pre: RewardVault, post: RewardVault) -> bool {
    exists|caller: Pubkey, consent: Consent|
        post == (#[trigger] claim_reward_effect(
            ClaimReward { consent, reward_vault: pre, participant: caller },
        )).reward_vault
}

/// Each vault in `history` comes from the one before it by one transition.
pub open spec fn vault_history(history: Seq<RewardVault>) -> bool {
    forall|i: int|
        0 <= i < history.len() - 1 ==> vault_step(#[trigger] history[i], history[i + 1])
}

/// A study is either open or closed, never both and never neither.
pub proof fn study_is_open_xor_closed(study: Study)
    ensures
        study.is_open() != study.is_closed(),
{
}

/// Closing is terminal: once a study is closed, no sequence of transitions
/// changes it again.
pub proof fn closed_study_stays_closed(history: Seq<Study>, i: int, j: int)
    requires
        study_history(history),
        0 <= i <= j < history.len(),
        history[i].is_closed(),
    ensures
        history[j].is_closed(),
        history[j] == history[i],
    decreases j - i,
{
    if i < j {
        closed_study_stays_closed(history, i, j - 1);
        assert(study_step(history[j - 1], history[j - 1 + 1]));
    }
}

/// A consent is active, and not revoked, right after it was given.
pub proof fn fresh_consent_is_active(ctx: GiveConsent, unix_timestamp: i64)
    ensures
        new_consent(ctx, unix_timestamp).is_active(),
        !new_consent(ctx, unix_timestamp).is_revoked(),
{
}

/// A consent is inactive after it was revoked, and nothing else of it has
/// changed.
pub proof fn revoked_consent_is_inactive(ctx: RevokeConsent)
    requires
        revoke_consent_result(ctx) is Ok,
    ensures
        !revoke_consent_effect(ctx).consent.is_active(),
        revoke_consent_effect(ctx).consent == (Consent { active: false, ..ctx.consent }),
{
}

/// A consent is inactive after a claim on it succeeded, and nothing else of
/// it has changed.
pub proof fn claimed_consent_is_inactive(ctx: ClaimReward)
    requires
        claim_reward_result(ctx) is Ok,
    ensures
        !claim_reward_effect(ctx).consent.is_active(),
        claim_reward_effect(ctx).consent == (Consent { active: false, ..ctx.consent }),
{
}

/// Deactivation is terminal: once a consent is inactive, no sequence of
/// transitions changes it again.
pub proof fn inactive_consent_stays_inactive(history: Seq<Consent>, i: int, j: int)
    requires
        consent_history(history),
        0 <= i <= j < history.len(),
        !history[i].is_active(),
    ensures
        !history[j].is_active(),
        history[j] == history[i],
    decreases j - i,
{
    if i < j {
        inactive_consent_stays_inactive(history, i, j - 1);
        assert(consent_step(history[j - 1], history[j - 1 + 1]));
    }
}

/// A vault's balance never grows: each transition either keeps it or takes
/// all of it.
pub proof fn vault_balance_never_grows(history: Seq<RewardVault>, i: int, j: int)
    requires
        vault_history(history),
        0 <= i <= j < history.len(),
    ensures
        history[j].balance == history[i].balance || history[j].balance == 0,
        history[j].balance <= history[i].balance,
        history[j].study == history[i].study,
    decreases j - i,
{
    if i < j {
        vault_balance_never_grows(history, i, j - 1);
        assert(vault_step(history[j - 1], history[j - 1 + 1]));
    }
}

/// A reward is paid once: after a successful claim, a second claim on the
/// same request is refused because the consent is spent, pays nothing, and
/// leaves the vault empty.
pub proof fn second_claim_is_rejected(ctx: ClaimReward)
    requires
        claim_reward_result(ctx) is Ok,
    ensures
        claim_reward_result(claim_reward_effect(ctx)) == Err::<u64, CustomError>(
            CustomError::ConsentNotActive,
        ),
        claim_reward_effect(claim_reward_effect(ctx)) == claim_reward_effect(ctx),
        claim_reward_effect(ctx).reward_vault.balance == 0,
{
}

/// After a successful claim, the consent's participant cannot claim against
/// any other vault either: the claim is refused and that vault untouched.
pub proof fn spent_consent_claims_nothing(ctx: ClaimReward, other_vault: RewardVault)
    requires
        claim_reward_result(ctx) is Ok,
    ensures
        ({
            let again = ClaimReward { reward_vault: other_vault, ..claim_reward_effect(ctx) };
            &&& claim_reward_result(again) == Err::<u64, CustomError>(
                CustomError::ConsentNotActive,
            )
            &&& claim_reward_effect(again) == again
        }),
{
}

/// A consent pays at most once: after a claim on it succeeded, every later
/// claim on it is refused, whoever calls, whatever happened to the consent in
/// between and whatever vault is named, and changes nothing.
pub proof fn paid_consent_never_pays_again(
    history: Seq<Consent>,
    i: int,
    j: int,
    first: ClaimReward,
    second: ClaimReward,
)
    requires
        consent_history(history),
        0 <= i < j < history.len(),
        first.consent == history[i],
        claim_reward_result(first) is Ok,
        claim_reward_effect(first).consent == history[i + 1],
        second.consent == history[j],
    ensures
        claim_reward_result(second) is Err,
        is_controller(second.participant, second.consent.participant) ==> claim_reward_result(
            second,
        ) == Err::<u64, CustomError>(CustomError::ConsentNotActive),
        claim_reward_effect(second) == second,
{
    inactive_consent_stays_inactive(history, i + 1, j);
}

/// A successful claim pays exactly what the vault held before the call and
/// leaves the vault empty.
pub proof fn claim_pays_whole_balance(ctx: ClaimReward)
    requires
        claim_reward_result(ctx) is Ok,
    ensures
        claim_reward_result(ctx) == Ok::<u64, CustomError>(ctx.reward_vault.balance),
        ctx.reward_vault.balance > 0,
        claim_reward_effect(ctx).reward_vault.balance == 0,
        claim_reward_effect(ctx).reward_vault.study == ctx.reward_vault.study,
{
}

/// Whoever creates a record controls it: the caller is the researcher of a
/// new study, the wallet of a new participant and the participant of a new
/// consent.
pub proof fn creator_controls_new_record(
    study: InitializeStudy,
    participant: RegisterParticipant,
    consent: GiveConsent,
    ipfs_cid: String,
    credentials_cid: Option<String>,
    reward_amount: u64,
    unix_timestamp: i64,
)
    ensures
        is_controller(study.researcher, new_study(study, ipfs_cid, reward_amount).researcher),
        is_controller(
            participant.wallet,
            new_participant(participant, ipfs_cid, credentials_cid).wallet,
        ),
        is_controller(consent.participant, new_consent(consent, unix_timestamp).participant),
{
}

/// Closing a study as anyone but its researcher is refused and changes
/// nothing.
pub proof fn unauthorized_close_is_rejected(ctx: CloseStudy)
    requires
        !is_controller(ctx.researcher, ctx.study.researcher),
    ensures
        close_study_result(ctx) == Err::<(), CustomError>(CustomError::Unauthorized),
        close_study_effect(ctx) == ctx,
{
}

/// Revoking a consent as anyone but its participant is refused and changes
/// nothing.
pub proof fn unauthorized_revoke_is_rejected(ctx: RevokeConsent)
    requires
        !is_controller(ctx.participant, ctx.consent.participant),
    ensures
        revoke_consent_result(ctx) == Err::<(), CustomError>(CustomError::Unauthorized),
        revoke_consent_effect(ctx) == ctx,
{
}

/// Claiming on a consent as anyone but its participant is refused and
/// changes nothing.
pub proof fn unauthorized_claim_is_rejected(ctx: ClaimReward)
    requires
        !is_controller(ctx.participant, ctx.consent.participant),
    ensures
        claim_reward_result(ctx) == Err::<u64, CustomError>(CustomError::Unauthorized),
        claim_reward_effect(ctx) == ctx,
{
}

/// A claim by the consent's participant, on an active consent, against an
/// empty vault is refused as not payable and changes nothing.
pub proof fn empty_vault_pays_nothing(ctx: ClaimReward)
    requires
        ctx.reward_vault.balance == 0,
        is_controller(ctx.participant, ctx.consent.participant),
        ctx.consent.is_active(),
    ensures
        claim_reward_result(ctx) == Err::<u64, CustomError>(CustomError::StudyNotClosed),
        claim_reward_effect(ctx) == ctx,
{
}

/// No claim against an empty vault succeeds, whoever calls and whatever the
/// consent's state.
pub proof fn empty_vault_never_pays(ctx: ClaimReward)
    requires
        ctx.reward_vault.balance == 0,
    ensures
        claim_reward_result(ctx) is Err,
        claim_reward_effect(ctx) == ctx,
{
}

/// A rejected transition changes nothing, and a claim never leaves the
/// vault emptied beside an active consent or the consent spent beside a
/// full vault.
pub proof fn transitions_are_atomic(close: CloseStudy, revoke: RevokeConsent, claim: ClaimReward)
    ensures
        close_study_result(close) is Err ==> close_study_effect(close) == close,
        revoke_consent_result(revoke) is Err ==> revoke_consent_effect(revoke) == revoke,
        claim_reward_result(claim) is Err ==> claim_reward_effect(claim) == claim,
        claim_reward_result(claim) is Ok ==> !claim_reward_effect(claim).consent.active
            && claim_reward_effect(claim).reward_vault.balance == 0,
{
}

} // verus!
