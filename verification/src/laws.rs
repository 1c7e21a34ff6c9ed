//! The engine's global guarantees, stated and proved once for every
//! reachable state.
//!
//! Every operation of [`Engine`] requires and re-establishes [`Engine::wf`],
//! so whatever follows from `wf` holds at every observable point. The proof
//! functions here spell those consequences out, together with the
//! conflict-rejection guarantees that the operations' own contracts pin
//! down.

use vstd::prelude::*;

use crate::engine::Engine;
use crate::errors::EngineError;
use crate::records::consent_index;
use crate::records::consent_of;
use crate::records::has_consent;
use crate::records::has_submission;
use crate::records::has_vault;
use crate::records::submission_index;
use crate::records::submission_of;
use crate::records::vault_of;
use crate::study::StudyStatus;
use crate::study::has_study;
use crate::study::spec_transitioned;
use crate::study::study_index;
use crate::study::study_of;

verus! {

/// Capacity invariant: in every well-formed state, every study has
/// `0 <= enrolled_count <= max_participants`.
pub proof fn lemma_enrollment_within_capacity(e: &Engine)
    requires
        e.wf(),
    ensures
        forall|i: int|
            0 <= i < e.studies@.len() ==> 0 <= (#[trigger] e.studies@[i]).enrolled_count
                <= e.studies@[i].max_participants,
{
}

/// Solvency invariant: in every well-formed state, every reward vault has
/// `total_distributed <= total_deposited`.
pub proof fn lemma_vault_solvency(e: &Engine)
    requires
        e.wf(),
    ensures
        forall|i: int|
            0 <= i < e.vaults@.len() ==> (#[trigger] e.vaults@[i]).total_distributed
                <= e.vaults@[i].total_deposited,
{
}

/// Idempotence of the time-driven transition: on a Published study whose
/// enrollment window has not ended, `transition_study_state` succeeds and
/// is a no-op — the transition check accepts, the transitioned study is
/// the study itself, and the recorded update leaves the ledger equal.
pub proof fn lemma_transition_noop(e: &Engine, study_id: u64, now: i64)
    requires
        e.wf(),
        has_study(e.studies@, study_id),
        study_of(e.studies@, study_id).status == StudyStatus::Published,
        now < study_of(e.studies@, study_id).enrollment_end,
    ensures
        Engine::spec_transition_err(e, study_id) is None,
        spec_transitioned(study_of(e.studies@, study_id), now) == study_of(e.studies@, study_id),
        e.studies@.update(
            study_index(e.studies@, study_id),
            spec_transitioned(study_of(e.studies@, study_id), now),
        ) == e.studies@,
{
    let i = study_index(e.studies@, study_id);
    assert(0 <= i < e.studies@.len() && e.studies@[i].study_id == study_id);
    assert(e.studies@.update(i, e.studies@[i]) =~= e.studies@);
}

/// Uniqueness of enrollment: where a consent already exists for the key
/// of a Published study, `enroll` decides `AlreadyEnrolled` — whatever
/// proof is supplied and however full the study is, the first enrollment
/// included having taken the last slot — and its contract then guarantees
/// the ledger (the enrolled count included) is left untouched.
pub proof fn lemma_enroll_duplicate_rejected(
    e: &Engine,
    study_id: u64,
    participant: u64,
    now: i64,
    info: &Option<crate::eligibility::ParticipantInfo>,
)
    requires
        e.wf(),
        has_study(e.studies@, study_id),
        study_of(e.studies@, study_id).status == StudyStatus::Published,
        has_consent(e.consents@, study_id, participant),
    ensures
        Engine::spec_enroll_err(e, study_id, participant, now, info) == Some(
            EngineError::AlreadyEnrolled,
        ),
{
}

/// Double-claim prevention: where a submission's reward is already
/// distributed, `settle_reward` decides `AlreadyClaimed` for any
/// authorized actor and any time, and its contract then guarantees the
/// ledger — the vault's `total_distributed` included — is left untouched,
/// so the totals reflect exactly one payout.
pub proof fn lemma_settle_double_claim(
    e: &Engine,
    study_id: u64,
    participant: u64,
    actor: u64,
    now: i64,
)
    requires
        e.wf(),
        has_study(e.studies@, study_id),
        actor == study_of(e.studies@, study_id).researcher || actor == participant,
        has_submission(e.submissions@, study_id, participant),
        submission_of(e.submissions@, study_id, participant).reward_distributed,
    ensures
        Engine::spec_settle_err(e, study_id, participant, actor, now) == Some(
            EngineError::AlreadyClaimed,
        ),
{
}

/// Completion stays within enrollment: in every well-formed state, every
/// study has `completed_count <= enrolled_count` (and so, with the
/// capacity invariant, `completed_count <= max_participants`): the
/// counters count the consent holders and the settled participants, and
/// every settled participant holds a consent.
pub proof fn lemma_completion_within_enrollment(e: &Engine)
    requires
        e.wf(),
    ensures
        forall|i: int|
            0 <= i < e.studies@.len() ==> (#[trigger] e.studies@[i]).completed_count
                <= e.studies@[i].enrolled_count <= e.studies@[i].max_participants,
{
}

/// Rejection of the ineligible: on a Published study with criteria, free
/// capacity and an open window, a first-time participant whose supplied
/// attributes fail the evaluator is turned away with `NotEligible`, and
/// `enroll`'s contract then guarantees no consent is recorded and the
/// enrolled count is unchanged.
pub proof fn lemma_enroll_not_eligible(
    e: &Engine,
    study_id: u64,
    participant: u64,
    now: i64,
    info: &Option<crate::eligibility::ParticipantInfo>,
)
    requires
        e.wf(),
        has_study(e.studies@, study_id),
        study_of(e.studies@, study_id).status == StudyStatus::Published,
        !has_consent(e.consents@, study_id, participant),
        study_of(e.studies@, study_id).enrolled_count < study_of(
            e.studies@,
            study_id,
        ).max_participants,
        study_of(e.studies@, study_id).enrollment_start <= now <= study_of(
            e.studies@,
            study_id,
        ).enrollment_end,
        study_of(e.studies@, study_id).criteria is Some,
        info is Some,
        !crate::eligibility::spec_eligible(
            &study_of(e.studies@, study_id).criteria.unwrap(),
            &info.unwrap(),
        ),
    ensures
        Engine::spec_enroll_err(e, study_id, participant, now, info) == Some(
            EngineError::NotEligible,
        ),
{
}

/// Settlement accounting: in every well-formed state, a study's
/// distributed total is exactly its completed count times its
/// per-participant reward; where its vault exists the vault's distributed
/// total matches it, and before a vault exists nothing has been paid. So
/// each completion is paid exactly once, and the totals reconcile.
pub proof fn lemma_settlement_accounting(e: &Engine, study_id: u64)
    requires
        e.wf(),
        has_study(e.studies@, study_id),
    ensures
        study_of(e.studies@, study_id).total_rewards_distributed == study_of(
            e.studies@,
            study_id,
        ).completed_count * study_of(e.studies@, study_id).reward_amount_per_participant,
        has_vault(e.vaults@, study_id) ==> vault_of(e.vaults@, study_id).total_distributed
            == study_of(e.studies@, study_id).total_rewards_distributed,
        !has_vault(e.vaults@, study_id) ==> study_of(e.studies@, study_id).total_rewards_distributed
            == 0 && study_of(e.studies@, study_id).completed_count == 0,
{
    let i = study_index(e.studies@, study_id);
    assert(0 <= i < e.studies@.len() && e.studies@[i].study_id == study_id);
    assert(Engine::study_accounting_ok(e.studies@[i], e.vaults@));
}

/// Every submission rests on a live consent: in a well-formed state, a
/// submission's key always has a consent record, and that consent is not
/// revoked and carries no revocation time.
pub proof fn lemma_submission_rests_on_consent(e: &Engine, study_id: u64, participant: u64)
    requires
        e.wf(),
        has_submission(e.submissions@, study_id, participant),
    ensures
        has_consent(e.consents@, study_id, participant),
        !consent_of(e.consents@, study_id, participant).is_revoked,
        consent_of(e.consents@, study_id, participant).revocation_timestamp is None,
{
    let k = submission_index(e.submissions@, study_id, participant);
    assert(0 <= k < e.submissions@.len() && e.submissions@[k].study_id == study_id
        && e.submissions@[k].participant == participant);
    assert(has_consent(e.consents@, e.submissions@[k].study_id, e.submissions@[k].participant));
    let c = consent_index(e.consents@, study_id, participant);
    assert(!(e.consents@[c].is_revoked));
}

/// Consent is locked by submission: once data was submitted for a key,
/// `revoke_consent` decides `AlreadySubmitted`, and the consent stays
/// unrevoked, with no revocation time recorded.
pub proof fn lemma_revoke_blocked_after_submission(e: &Engine, study_id: u64, participant: u64)
    requires
        e.wf(),
        has_submission(e.submissions@, study_id, participant),
    ensures
        Engine::spec_revoke_err(e, study_id, participant, participant) == Some(
            EngineError::AlreadySubmitted,
        ),
        !consent_of(e.consents@, study_id, participant).is_revoked,
        consent_of(e.consents@, study_id, participant).revocation_timestamp is None,
{
    lemma_submission_rests_on_consent(e, study_id, participant);
}

} // verus!
