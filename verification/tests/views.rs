//! The read-only views: study progress figures, consent status, and
//! protocol statistics.

use recru_search::engine::Engine;
use recru_search::errors::EngineError;
use recru_search::queries::StudyPhase;
use recru_search::study::StudyParams;
use recru_search::study::StudyStatus;

fn setup() -> Engine {
    let mut e = Engine::new();
    e.initialize_admin(9, Some(250), Some(86_400), Some(31_536_000)).unwrap();
    e.create_study(
        42,
        5_000,
        StudyParams {
            study_id: 7,
            title: String::from("Sleep and memory"),
            description: String::from("A diary study of sleep quality."),
            enrollment_start: 10_000,
            enrollment_end: 60_000,
            data_collection_end: 210_000,
            max_participants: 10,
            reward_amount_per_participant: 100,
        },
    )
    .unwrap();
    e
}

#[test]
fn study_info_progress_figures() {
    let mut e = setup();
    e.publish_study(7, 42, 6_000).unwrap();
    e.enroll(7, 501, 20_000, None, 1).unwrap();

    let info = e.get_study_info(7, 20_000).unwrap();
    assert_eq!(info.study_id, 7);
    assert_eq!(info.title, "Sleep and memory");
    assert_eq!(info.researcher, 42);
    assert_eq!(info.status, StudyStatus::Published);
    // One of ten slots taken.
    assert_eq!(info.participants_percentage, 10);
    // 10_000 of the 50_000-second window elapsed.
    assert_eq!(info.time_percentage, 20);
    assert!(info.is_enrollment_open);
    assert_eq!(info.until_enrollment_start, 0);
    assert_eq!(info.until_enrollment_end, 40_000);
    assert_eq!(info.until_data_collection_end, 190_000);
    assert_eq!(info.phase, StudyPhase::EnrollmentOpen);
    assert_eq!(info.enrolled_count, 1);
    assert_eq!(info.max_participants, 10);

    assert_eq!(e.get_study_info(99, 20_000), Err(EngineError::StudyNotFound));
}

#[test]
fn study_info_phases() {
    let mut e = setup();
    let info = e.get_study_info(7, 6_000).unwrap();
    assert_eq!(info.phase, StudyPhase::Draft);
    assert_eq!(info.phase.name(), "Draft");

    e.publish_study(7, 42, 6_000).unwrap();
    assert_eq!(e.get_study_info(7, 9_999).unwrap().phase, StudyPhase::PreEnrollment);
    assert_eq!(e.get_study_info(7, 9_999).unwrap().until_enrollment_start, 1);
    assert_eq!(e.get_study_info(7, 10_000).unwrap().phase, StudyPhase::EnrollmentOpen);
    assert_eq!(e.get_study_info(7, 60_000).unwrap().phase, StudyPhase::EnrollmentOpen);
    assert_eq!(e.get_study_info(7, 60_001).unwrap().phase, StudyPhase::DataCollection);
    assert_eq!(e.get_study_info(7, 210_001).unwrap().phase, StudyPhase::Completed);
    // The elapsed-time share clamps at the window edges.
    assert_eq!(e.get_study_info(7, 9_000).unwrap().time_percentage, 0);
    assert_eq!(e.get_study_info(7, 60_000).unwrap().time_percentage, 100);
    assert_eq!(e.get_study_info(7, 35_000).unwrap().time_percentage, 50);
}

#[test]
fn consent_status_view() {
    let mut e = setup();
    e.publish_study(7, 42, 6_000).unwrap();
    assert_eq!(e.get_consent_status(7, 501), Err(EngineError::ConsentNotFound));

    e.enroll(7, 501, 20_000, None, 1).unwrap();
    let cs = e.get_consent_status(7, 501).unwrap();
    assert!(cs.has_consented);
    assert!(!cs.is_revoked);
    assert_eq!(cs.consent_timestamp, 20_000);
    assert_eq!(cs.study_id, 7);
    assert_eq!(cs.participant, 501);

    e.revoke_consent(7, 501, 501, 21_000).unwrap();
    assert!(e.get_consent_status(7, 501).unwrap().is_revoked);
}

#[test]
fn protocol_stats_track_totals() {
    let mut e = Engine::new();
    assert_eq!(e.get_protocol_stats(), Err(EngineError::AdminNotInitialized));
    e.initialize_admin(9, Some(250), Some(86_400), Some(31_536_000)).unwrap();

    let ps = e.get_protocol_stats().unwrap();
    assert_eq!(ps.admin, 9);
    assert_eq!(ps.protocol_fee_bps, 250);
    assert_eq!(ps.min_study_duration, 86_400);
    assert_eq!(ps.max_study_duration, 31_536_000);
    assert_eq!(ps.total_studies, 0);
    assert_eq!(ps.total_participants, 0);
    assert_eq!(ps.total_rewards_distributed, 0);

    let mut e = setup();
    e.publish_study(7, 42, 6_000).unwrap();
    e.enroll(7, 501, 20_000, None, 1).unwrap();
    e.create_reward_vault(7, 42, 5, 1_000, 1_000).unwrap();
    e.submit_data(7, 501, 30_000, {
        let mut h = [0u8; 32];
        h[0] = 1;
        h
    }, String::from("bafybeigdyrztx42qsleep001")).unwrap();
    e.transition_study_state(7, 60_000).unwrap();
    e.settle_reward(7, 501, 42, 200_000, 900).unwrap();

    let ps = e.get_protocol_stats().unwrap();
    assert_eq!(ps.total_studies, 1);
    assert_eq!(ps.total_participants, 1);
    assert_eq!(ps.total_rewards_distributed, 100);
}

#[test]
fn defaults_applied_when_omitted() {
    let mut e = Engine::new();
    e.initialize_admin(9, None, None, None).unwrap();
    let ps = e.get_protocol_stats().unwrap();
    assert_eq!(ps.protocol_fee_bps, 250);
    assert_eq!(ps.min_study_duration, 86_400);
    assert_eq!(ps.max_study_duration, 31_536_000);
}
