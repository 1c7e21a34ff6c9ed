//! End-to-end scenarios over the engine: lifecycle, enrollment, submission
//! and settlement, with every error path exercised on concrete inputs.

use recru_search::engine::Engine;
use recru_search::errors::EngineError;
use recru_search::errors::ErrorKind;
use recru_search::study::StudyParams;
use recru_search::study::StudyStatus;

const RESEARCHER: u64 = 42;
const PARTICIPANT: u64 = 501;
const OTHER_PARTICIPANT: u64 = 502;
const STUDY: u64 = 7;

const CREATED_AT: i64 = 5_000;
const ENROLL_START: i64 = 10_000;
const ENROLL_END: i64 = 50_000;
const COLLECTION_END: i64 = 210_000;

fn params(study_id: u64, max_participants: u32, reward: u64) -> StudyParams {
    StudyParams {
        study_id,
        title: String::from("Sleep and memory"),
        description: String::from("A diary study of sleep quality."),
        enrollment_start: ENROLL_START,
        enrollment_end: ENROLL_END,
        data_collection_end: COLLECTION_END,
        max_participants,
        reward_amount_per_participant: reward,
    }
}

fn engine_with_study(max_participants: u32, reward: u64) -> Engine {
    let mut e = Engine::new();
    e.initialize_admin(1, None, None, None).unwrap();
    e.create_study(RESEARCHER, CREATED_AT, params(STUDY, max_participants, reward))
        .unwrap();
    e
}

fn published_study(max_participants: u32, reward: u64) -> Engine {
    let mut e = engine_with_study(max_participants, reward);
    e.publish_study(STUDY, RESEARCHER, 6_000).unwrap();
    e
}

fn hash_of(b: u8) -> [u8; 32] {
    let mut h = [0u8; 32];
    h[0] = b;
    h
}

fn cid() -> String {
    String::from("bafybeigdyrztx42qsleep001")
}

#[test]
fn admin_initializes_once() {
    let mut e = Engine::new();
    assert_eq!(e.initialize_admin(1, Some(250), Some(86_400), Some(31_536_000)), Ok(()));
    assert_eq!(
        e.initialize_admin(1, None, None, None),
        Err(EngineError::AdminAlreadyInitialized)
    );
}

#[test]
fn admin_rejects_excessive_fee() {
    let mut e = Engine::new();
    assert_eq!(e.initialize_admin(1, Some(1_001), None, None), Err(EngineError::ExcessiveProtocolFee));
    assert!(e.admin.is_none());
}

#[test]
fn admin_rejects_empty_duration_range() {
    let mut e = Engine::new();
    assert_eq!(
        e.initialize_admin(1, None, Some(100), Some(100)),
        Err(EngineError::InvalidDurationBounds)
    );
}

#[test]
fn create_study_requires_admin() {
    let mut e = Engine::new();
    assert_eq!(
        e.create_study(RESEARCHER, CREATED_AT, params(STUDY, 10, 100)),
        Err(EngineError::AdminNotInitialized)
    );
}

#[test]
fn create_study_validates_bounds() {
    let mut e = Engine::new();
    e.initialize_admin(1, None, None, None).unwrap();

    let mut p = params(STUDY, 10, 100);
    p.title = "x".repeat(101);
    assert_eq!(e.create_study(RESEARCHER, CREATED_AT, p), Err(EngineError::TitleTooLong));

    let mut p = params(STUDY, 10, 100);
    p.description = "y".repeat(501);
    assert_eq!(e.create_study(RESEARCHER, CREATED_AT, p), Err(EngineError::DescriptionTooLong));

    assert_eq!(
        e.create_study(RESEARCHER, CREATED_AT, params(STUDY, 0, 100)),
        Err(EngineError::InvalidMaxParticipants)
    );
    assert_eq!(
        e.create_study(RESEARCHER, CREATED_AT, params(STUDY, 10_001, 100)),
        Err(EngineError::InvalidMaxParticipants)
    );

    let mut p = params(STUDY, 10, 100);
    p.enrollment_end = p.enrollment_start;
    assert_eq!(e.create_study(RESEARCHER, CREATED_AT, p), Err(EngineError::InvalidEnrollmentEnd));

    let mut p = params(STUDY, 10, 100);
    p.data_collection_end = p.enrollment_end;
    assert_eq!(
        e.create_study(RESEARCHER, CREATED_AT, p),
        Err(EngineError::InvalidDataCollectionEnd)
    );

    // Start must lie strictly in the future of the supplied clock.
    assert_eq!(
        e.create_study(RESEARCHER, ENROLL_START, params(STUDY, 10, 100)),
        Err(EngineError::InvalidEnrollmentStart)
    );

    // A window one second short of an hour.
    let mut p = params(STUDY, 10, 100);
    p.enrollment_end = p.enrollment_start + 3_599;
    assert_eq!(e.create_study(RESEARCHER, CREATED_AT, p), Err(EngineError::InvalidEnrollmentPeriod));

    // Total duration one second short of a day.
    let mut p = params(STUDY, 10, 100);
    p.data_collection_end = p.enrollment_start + 86_399;
    assert_eq!(e.create_study(RESEARCHER, CREATED_AT, p), Err(EngineError::InvalidStudyDuration));

    // Still empty: every rejection left the ledger untouched.
    assert!(e.studies.is_empty());
}

#[test]
fn create_study_rejects_duplicate_id() {
    let mut e = engine_with_study(10, 100);
    assert_eq!(
        e.create_study(RESEARCHER, CREATED_AT, params(STUDY, 10, 100)),
        Err(EngineError::StudyAlreadyExists)
    );
    assert_eq!(e.studies.len(), 1);
}

#[test]
fn create_study_initial_state() {
    let e = engine_with_study(10, 100);
    let s = &e.studies[0];
    assert_eq!(s.study_id, STUDY);
    assert_eq!(s.researcher, RESEARCHER);
    assert_eq!(s.status, StudyStatus::Draft);
    assert_eq!(s.enrolled_count, 0);
    assert_eq!(s.completed_count, 0);
    assert_eq!(s.total_rewards_distributed, 0);
    assert_eq!(s.created_at, CREATED_AT);
    assert!(s.criteria.is_none());
    assert_eq!(e.admin.unwrap().total_studies, 1);
}

#[test]
fn publish_requires_researcher_and_draft() {
    let mut e = engine_with_study(10, 100);
    assert_eq!(e.publish_study(99, RESEARCHER, 6_000), Err(EngineError::StudyNotFound));
    assert_eq!(e.publish_study(STUDY, 41, 6_000), Err(EngineError::UnauthorizedResearcher));
    // Too late: the enrollment start has passed.
    assert_eq!(
        e.publish_study(STUDY, RESEARCHER, ENROLL_START + 1),
        Err(EngineError::InvalidEnrollmentStart)
    );
    assert_eq!(e.publish_study(STUDY, RESEARCHER, 6_000), Ok(()));
    assert_eq!(e.studies[0].status, StudyStatus::Published);
    // Published is no longer Draft.
    assert_eq!(e.publish_study(STUDY, RESEARCHER, 6_500), Err(EngineError::InvalidStudyState));
}

#[test]
fn close_study_records_final_counts() {
    let mut e = published_study(10, 100);
    e.enroll(STUDY, PARTICIPANT, 20_000, None, 1).unwrap();
    assert_eq!(e.close_study(STUDY, RESEARCHER), Ok((1, 0)));
    assert_eq!(e.studies[0].status, StudyStatus::Closed);
    // A closed study cannot be closed again.
    assert_eq!(e.close_study(STUDY, RESEARCHER), Err(EngineError::InvalidStudyState));
}

#[test]
fn transition_noop_while_enrollment_open() {
    let mut e = published_study(10, 100);
    // No boundary crossed: success, nothing changes.
    assert_eq!(e.transition_study_state(STUDY, 20_000), Ok(StudyStatus::Published));
    assert_eq!(e.studies[0].status, StudyStatus::Published);
    // Retrying is still a no-op.
    assert_eq!(e.transition_study_state(STUDY, 20_001), Ok(StudyStatus::Published));
    assert_eq!(e.studies[0].status, StudyStatus::Published);
}

#[test]
fn transition_activates_after_enrollment_ends() {
    let mut e = published_study(10, 100);
    assert_eq!(e.transition_study_state(STUDY, ENROLL_END), Ok(StudyStatus::Active));
    assert_eq!(e.studies[0].status, StudyStatus::Active);
    // From Active there is no automatic transition.
    assert_eq!(e.transition_study_state(STUDY, COLLECTION_END + 1), Ok(StudyStatus::Active));
    assert_eq!(e.studies[0].status, StudyStatus::Active);
}

#[test]
fn transition_rejects_draft_and_closed() {
    let mut e = engine_with_study(10, 100);
    assert_eq!(e.transition_study_state(STUDY, 20_000), Err(EngineError::InvalidStudyState));
    e.publish_study(STUDY, RESEARCHER, 6_000).unwrap();
    e.close_study(STUDY, RESEARCHER).unwrap();
    assert_eq!(e.transition_study_state(STUDY, 20_000), Err(EngineError::InvalidStudyState));
}

#[test]
fn enroll_requires_published_study() {
    let mut e = engine_with_study(10, 100);
    assert_eq!(
        e.enroll(STUDY, PARTICIPANT, 20_000, None, 1),
        Err(EngineError::StudyNotPublished)
    );
    assert_eq!(e.enroll(99, PARTICIPANT, 20_000, None, 1), Err(EngineError::StudyNotFound));
}

#[test]
fn enroll_respects_window() {
    let mut e = published_study(10, 100);
    assert_eq!(
        e.enroll(STUDY, PARTICIPANT, ENROLL_START - 1, None, 1),
        Err(EngineError::EnrollmentClosed)
    );
    assert_eq!(
        e.enroll(STUDY, PARTICIPANT, ENROLL_END + 1, None, 1),
        Err(EngineError::EnrollmentClosed)
    );
    assert_eq!(e.enroll(STUDY, PARTICIPANT, ENROLL_START, None, 1), Ok(()));
}

#[test]
fn enroll_records_consent_and_counters() {
    let mut e = published_study(10, 100);
    e.enroll(STUDY, PARTICIPANT, 20_000, None, 77).unwrap();
    assert_eq!(e.studies[0].enrolled_count, 1);
    assert_eq!(e.admin.unwrap().total_participants, 1);
    let c = &e.consents[0];
    assert_eq!(c.study_id, STUDY);
    assert_eq!(c.participant, PARTICIPANT);
    assert_eq!(c.timestamp, 20_000);
    assert!(!c.is_revoked);
    assert_eq!(c.revocation_timestamp, None);
    assert_eq!(c.credential, 77);
}

#[test]
fn enroll_twice_fails_without_double_count() {
    let mut e = published_study(10, 100);
    assert_eq!(e.enroll(STUDY, PARTICIPANT, 20_000, None, 1), Ok(()));
    assert_eq!(
        e.enroll(STUDY, PARTICIPANT, 20_001, None, 2),
        Err(EngineError::AlreadyEnrolled)
    );
    assert_eq!(e.studies[0].enrolled_count, 1);
    assert_eq!(e.consents.len(), 1);
}

#[test]
fn enroll_full_study_rejected() {
    let mut e = published_study(1, 100);
    assert_eq!(e.enroll(STUDY, PARTICIPANT, 20_000, None, 1), Ok(()));
    let r = e.enroll(STUDY, OTHER_PARTICIPANT, 20_000, None, 2);
    assert_eq!(r, Err(EngineError::StudyFull));
    assert_eq!(r.unwrap_err().kind(), ErrorKind::State);
    assert_eq!(e.studies[0].enrolled_count, 1);
    // The same participant, though, is told about the duplicate, not the
    // capacity: the duplicate check comes first.
    assert_eq!(
        e.enroll(STUDY, PARTICIPANT, 20_000, None, 3),
        Err(EngineError::AlreadyEnrolled)
    );
}

#[test]
fn revoke_marks_consent_and_blocks_reuse() {
    let mut e = published_study(10, 100);
    e.enroll(STUDY, PARTICIPANT, 20_000, None, 1).unwrap();
    assert_eq!(
        e.revoke_consent(STUDY, PARTICIPANT, OTHER_PARTICIPANT, 21_000),
        Err(EngineError::UnauthorizedParticipant)
    );
    assert_eq!(e.revoke_consent(STUDY, PARTICIPANT, PARTICIPANT, 21_000), Ok(()));
    let c = &e.consents[0];
    assert!(c.is_revoked);
    assert_eq!(c.revocation_timestamp, Some(21_000));
    // Already revoked.
    assert_eq!(
        e.revoke_consent(STUDY, PARTICIPANT, PARTICIPANT, 22_000),
        Err(EngineError::ConsentRevoked)
    );
    // A revoked consent cannot carry a submission.
    assert_eq!(
        e.submit_data(STUDY, PARTICIPANT, 22_000, hash_of(1), cid()),
        Err(EngineError::ConsentRevoked)
    );
    // The enrolled count keeps the withdrawn slot.
    assert_eq!(e.studies[0].enrolled_count, 1);
}

#[test]
fn revoke_without_consent_fails() {
    let mut e = published_study(10, 100);
    assert_eq!(
        e.revoke_consent(STUDY, PARTICIPANT, PARTICIPANT, 21_000),
        Err(EngineError::ConsentNotFound)
    );
}

#[test]
fn submit_validates_inputs() {
    let mut e = published_study(10, 100);
    e.enroll(STUDY, PARTICIPANT, 20_000, None, 1).unwrap();

    assert_eq!(
        e.submit_data(99, PARTICIPANT, 30_000, hash_of(1), cid()),
        Err(EngineError::StudyNotFound)
    );
    assert_eq!(
        e.submit_data(STUDY, OTHER_PARTICIPANT, 30_000, hash_of(1), cid()),
        Err(EngineError::ConsentNotFound)
    );
    assert_eq!(
        e.submit_data(STUDY, PARTICIPANT, 30_000, hash_of(1), String::from("short")),
        Err(EngineError::InvalidContentId)
    );
    assert_eq!(
        e.submit_data(STUDY, PARTICIPANT, 30_000, hash_of(1), "c".repeat(101)),
        Err(EngineError::InvalidContentId)
    );
    assert_eq!(
        e.submit_data(STUDY, PARTICIPANT, 30_000, [0u8; 32], cid()),
        Err(EngineError::InvalidDataHash)
    );
    assert_eq!(
        e.submit_data(STUDY, PARTICIPANT, COLLECTION_END + 1, hash_of(1), cid()),
        Err(EngineError::DataCollectionClosed)
    );
    assert!(e.submissions.is_empty());

    assert_eq!(e.submit_data(STUDY, PARTICIPANT, 30_000, hash_of(1), cid()), Ok(()));
    let s = &e.submissions[0];
    assert_eq!(s.submission_timestamp, 30_000);
    assert!(!s.reward_distributed);
    assert!(!s.is_verified);
    assert_eq!(s.completion_credential, None);

    // One submission per key.
    assert_eq!(
        e.submit_data(STUDY, PARTICIPANT, 31_000, hash_of(2), cid()),
        Err(EngineError::AlreadySubmitted)
    );
    assert_eq!(e.submissions.len(), 1);
}

#[test]
fn submit_rejected_in_draft_and_closed() {
    let mut e = engine_with_study(10, 100);
    assert_eq!(
        e.submit_data(STUDY, PARTICIPANT, 30_000, hash_of(1), cid()),
        Err(EngineError::InvalidStudyState)
    );
    e.publish_study(STUDY, RESEARCHER, 6_000).unwrap();
    e.enroll(STUDY, PARTICIPANT, 20_000, None, 1).unwrap();
    e.close_study(STUDY, RESEARCHER).unwrap();
    assert_eq!(
        e.submit_data(STUDY, PARTICIPANT, 30_000, hash_of(1), cid()),
        Err(EngineError::InvalidStudyState)
    );
}

#[test]
fn revoke_after_submission_blocked() {
    let mut e = published_study(10, 100);
    e.enroll(STUDY, PARTICIPANT, 20_000, None, 1).unwrap();
    e.submit_data(STUDY, PARTICIPANT, 30_000, hash_of(1), cid()).unwrap();
    let r = e.revoke_consent(STUDY, PARTICIPANT, PARTICIPANT, 31_000);
    assert_eq!(r, Err(EngineError::AlreadySubmitted));
    assert_eq!(r.unwrap_err().kind(), ErrorKind::Participant);
    assert!(!e.consents[0].is_revoked);
}

#[test]
fn vault_requires_covering_deposit() {
    let mut e = published_study(10, 100);
    // One short of max_participants * reward.
    let r = e.create_reward_vault(STUDY, RESEARCHER, 5, 999, 10_000);
    assert_eq!(r, Err(EngineError::InsufficientFunds));
    assert_eq!(r.unwrap_err().kind(), ErrorKind::Funds);
    assert!(e.vaults.is_empty());
    // Depositor balance short of the deposit.
    assert_eq!(
        e.create_reward_vault(STUDY, RESEARCHER, 5, 1_000, 999),
        Err(EngineError::InsufficientFunds)
    );
    assert!(e.vaults.is_empty());
    assert_eq!(e.create_reward_vault(STUDY, RESEARCHER, 5, 1_000, 1_000), Ok(()));
    let v = &e.vaults[0];
    assert_eq!(v.study_id, STUDY);
    assert_eq!(v.reward_asset, 5);
    assert_eq!(v.total_deposited, 1_000);
    assert_eq!(v.total_distributed, 0);
    // One vault per study.
    assert_eq!(
        e.create_reward_vault(STUDY, RESEARCHER, 5, 1_000, 1_000),
        Err(EngineError::VaultAlreadyExists)
    );
}

#[test]
fn vault_requires_researcher() {
    let mut e = published_study(10, 100);
    assert_eq!(
        e.create_reward_vault(STUDY, 41, 5, 1_000, 1_000),
        Err(EngineError::UnauthorizedResearcher)
    );
    assert_eq!(
        e.create_reward_vault(99, RESEARCHER, 5, 1_000, 1_000),
        Err(EngineError::StudyNotFound)
    );
}

#[test]
fn full_settlement_scenario() {
    let mut e = published_study(10, 100);
    e.enroll(STUDY, PARTICIPANT, 20_000, None, 1).unwrap();
    assert_eq!(e.studies[0].enrolled_count, 1);
    e.create_reward_vault(STUDY, RESEARCHER, 5, 1_000, 1_000).unwrap();
    e.submit_data(STUDY, PARTICIPANT, 30_000, hash_of(1), cid()).unwrap();

    // Settlement while still Published is a state error.
    let early = e.settle_reward(STUDY, PARTICIPANT, RESEARCHER, 40_000, 900);
    assert_eq!(early, Err(EngineError::InvalidStudyState));
    assert_eq!(early.unwrap_err().kind(), ErrorKind::State);

    // Enrollment over: the study turns Active.
    e.transition_study_state(STUDY, ENROLL_END).unwrap();

    // The cooldown (24 h from the submission) has not elapsed.
    let r = e.settle_reward(STUDY, PARTICIPANT, RESEARCHER, 30_000 + 86_399, 900);
    assert_eq!(r, Err(EngineError::CooldownNotElapsed));
    assert_eq!(r.unwrap_err().kind(), ErrorKind::State);
    assert_eq!(e.vaults[0].total_distributed, 0);

    // Past the cooldown the settlement pays exactly one reward.
    assert_eq!(e.settle_reward(STUDY, PARTICIPANT, RESEARCHER, 30_000 + 86_400, 900), Ok(100));
    assert_eq!(e.vaults[0].total_distributed, 100);
    assert!(e.submissions[0].reward_distributed);
    assert_eq!(e.submissions[0].completion_credential, Some(900));
    assert_eq!(e.studies[0].completed_count, 1);
    assert_eq!(e.studies[0].total_rewards_distributed, 100);
    assert_eq!(e.admin.unwrap().total_rewards_distributed, 100);
}

#[test]
fn settle_twice_fails_with_one_payout() {
    let mut e = published_study(10, 100);
    e.enroll(STUDY, PARTICIPANT, 20_000, None, 1).unwrap();
    e.create_reward_vault(STUDY, RESEARCHER, 5, 1_000, 1_000).unwrap();
    e.submit_data(STUDY, PARTICIPANT, 30_000, hash_of(1), cid()).unwrap();
    e.transition_study_state(STUDY, ENROLL_END).unwrap();
    assert_eq!(e.settle_reward(STUDY, PARTICIPANT, PARTICIPANT, 200_000, 900), Ok(100));
    let again = e.settle_reward(STUDY, PARTICIPANT, PARTICIPANT, 250_000, 901);
    assert_eq!(again, Err(EngineError::AlreadyClaimed));
    assert_eq!(again.unwrap_err().kind(), ErrorKind::Funds);
    assert_eq!(e.vaults[0].total_distributed, 100);
    assert_eq!(e.studies[0].completed_count, 1);
}

#[test]
fn settle_guards() {
    let mut e = published_study(10, 100);
    e.enroll(STUDY, PARTICIPANT, 20_000, None, 1).unwrap();
    e.submit_data(STUDY, PARTICIPANT, 30_000, hash_of(1), cid()).unwrap();
    e.transition_study_state(STUDY, ENROLL_END).unwrap();
    // A stranger may not settle.
    let r = e.settle_reward(STUDY, PARTICIPANT, 999, 200_000, 900);
    assert_eq!(r, Err(EngineError::UnauthorizedActor));
    assert_eq!(r.unwrap_err().kind(), ErrorKind::Authorization);
    // No submission for this key.
    assert_eq!(
        e.settle_reward(STUDY, OTHER_PARTICIPANT, RESEARCHER, 200_000, 900),
        Err(EngineError::SubmissionNotFound)
    );
    // No vault yet.
    assert_eq!(
        e.settle_reward(STUDY, PARTICIPANT, RESEARCHER, 200_000, 900),
        Err(EngineError::VaultNotFound)
    );
}

#[test]
fn settle_in_closed_study_works() {
    let mut e = published_study(10, 100);
    e.enroll(STUDY, PARTICIPANT, 20_000, None, 1).unwrap();
    e.create_reward_vault(STUDY, RESEARCHER, 5, 1_000, 1_000).unwrap();
    e.submit_data(STUDY, PARTICIPANT, 30_000, hash_of(1), cid()).unwrap();
    e.close_study(STUDY, RESEARCHER).unwrap();
    assert_eq!(e.settle_reward(STUDY, PARTICIPANT, RESEARCHER, 200_000, 900), Ok(100));
}

#[test]
fn settle_overflow_is_detected_first() {
    // Two one-participant studies each paying half the counter range: the
    // second settlement would push the protocol-wide total past u64::MAX.
    let huge: u64 = 1 << 63;
    let mut e = Engine::new();
    e.initialize_admin(1, None, None, None).unwrap();
    for id in [7u64, 8u64] {
        e.create_study(RESEARCHER, CREATED_AT, params(id, 1, huge)).unwrap();
        e.publish_study(id, RESEARCHER, 6_000).unwrap();
        e.enroll(id, PARTICIPANT, 20_000, None, 1).unwrap();
        e.create_reward_vault(id, RESEARCHER, 5, huge, huge).unwrap();
        e.submit_data(id, PARTICIPANT, 30_000, hash_of(1), cid()).unwrap();
        e.transition_study_state(id, ENROLL_END).unwrap();
    }
    assert_eq!(e.settle_reward(7, PARTICIPANT, RESEARCHER, 200_000, 900), Ok(huge));
    assert_eq!(e.admin.unwrap().total_rewards_distributed, huge);
    let r = e.settle_reward(8, PARTICIPANT, RESEARCHER, 200_000, 901);
    assert_eq!(r, Err(EngineError::ArithmeticOverflow));
    assert_eq!(r.unwrap_err().kind(), ErrorKind::Arithmetic);
    // The failed settlement paid and marked nothing.
    assert_eq!(e.vaults[1].total_distributed, 0);
    assert!(!e.submissions[1].reward_distributed);
    assert_eq!(e.studies[1].completed_count, 0);
    assert_eq!(e.admin.unwrap().total_rewards_distributed, huge);
}

#[test]
fn error_messages_are_nonempty() {
    let errors = vec![
        EngineError::TitleTooLong,
        EngineError::StudyNotFound,
        EngineError::UnauthorizedResearcher,
        EngineError::StudyFull,
        EngineError::NotEligible,
        EngineError::InsufficientFunds,
        EngineError::AlreadyClaimed,
        EngineError::ArithmeticOverflow,
    ];
    for e in errors {
        assert!(!e.message().is_empty());
    }
}

#[test]
fn error_kinds_follow_taxonomy() {
    assert_eq!(EngineError::TitleTooLong.kind(), ErrorKind::Validation);
    assert_eq!(EngineError::UnauthorizedResearcher.kind(), ErrorKind::Authorization);
    assert_eq!(EngineError::InvalidStudyState.kind(), ErrorKind::State);
    assert_eq!(EngineError::InvalidEligibilityProof.kind(), ErrorKind::Data);
    assert_eq!(EngineError::ConsentRevoked.kind(), ErrorKind::Participant);
    assert_eq!(EngineError::InsufficientFunds.kind(), ErrorKind::Funds);
    assert_eq!(EngineError::ArithmeticOverflow.kind(), ErrorKind::Arithmetic);
}
