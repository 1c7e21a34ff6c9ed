//! The eligibility evaluator on concrete criteria and participants,
//! including case-insensitive matching and enrollment gating.

use recru_search::eligibility::evaluate;
use recru_search::eligibility::EligibilityCriteria;
use recru_search::eligibility::ParticipantInfo;
use recru_search::engine::Engine;
use recru_search::errors::EngineError;
use recru_search::study::StudyParams;

fn no_criteria() -> EligibilityCriteria {
    EligibilityCriteria {
        min_age: None,
        max_age: None,
        gender: None,
        location: None,
        education_level: None,
        employment_status: None,
        excluded_conditions: None,
        custom_requirements: None,
    }
}

fn participant(age: u8) -> ParticipantInfo {
    ParticipantInfo {
        age,
        gender: String::from("female"),
        location: String::from("Berlin"),
        education_level: String::from("Bachelor"),
        employment_status: String::from("employed"),
        medical_conditions: vec![],
        additional_info: None,
    }
}

#[test]
fn empty_criteria_accept_everyone() {
    let c = no_criteria();
    assert!(evaluate(&c, &participant(1)));
    assert!(evaluate(&c, &participant(120)));
}

#[test]
fn age_bounds() {
    let mut c = no_criteria();
    c.min_age = Some(18);
    c.max_age = Some(65);
    assert!(!evaluate(&c, &participant(16)));
    assert!(!evaluate(&c, &participant(17)));
    assert!(evaluate(&c, &participant(18)));
    assert!(evaluate(&c, &participant(30)));
    assert!(evaluate(&c, &participant(65)));
    assert!(!evaluate(&c, &participant(66)));
}

#[test]
fn string_rules_match_case_insensitively() {
    let mut c = no_criteria();
    c.gender = Some(String::from("Female"));
    c.location = Some(String::from("BERLIN"));
    c.education_level = Some(String::from("bachelor"));
    c.employment_status = Some(String::from("Employed"));
    // The participant writes every field in a different case.
    assert!(evaluate(&c, &participant(30)));

    let mut other = participant(30);
    other.location = String::from("Hamburg");
    assert!(!evaluate(&c, &other));
}

#[test]
fn excluded_conditions_reject_reporters() {
    let mut c = no_criteria();
    c.excluded_conditions = Some(vec![String::from("Diabetes"), String::from("Asthma")]);
    let healthy = participant(30);
    assert!(evaluate(&c, &healthy));

    let mut reporter = participant(30);
    reporter.medical_conditions = vec![String::from("asthma")];
    assert!(!evaluate(&c, &reporter));

    let mut unrelated = participant(30);
    unrelated.medical_conditions = vec![String::from("hay fever")];
    assert!(evaluate(&c, &unrelated));
}

#[test]
fn custom_requirements_demand_declared_attributes() {
    let mut c = no_criteria();
    c.custom_requirements = Some(vec![String::from("Smartphone"), String::from("fluent german")]);

    // No attribute list declared: every requirement fails.
    assert!(!evaluate(&c, &participant(30)));

    let mut declared = participant(30);
    declared.additional_info = Some(vec![
        String::from("smartphone"),
        String::from("Fluent German"),
    ]);
    assert!(evaluate(&c, &declared));

    let mut partial = participant(30);
    partial.additional_info = Some(vec![String::from("smartphone")]);
    assert!(!evaluate(&c, &partial));
}

#[test]
fn criteria_validation_bounds() {
    let mut c = no_criteria();
    assert!(c.validate());
    c.min_age = Some(17);
    assert!(!c.validate());
    c.min_age = Some(18);
    assert!(c.validate());
    c.max_age = Some(101);
    assert!(!c.validate());
    c.max_age = Some(100);
    assert!(c.validate());
    c.min_age = Some(60);
    c.max_age = Some(50);
    assert!(!c.validate());
}

#[test]
fn enrollment_gated_by_criteria() {
    let mut e = Engine::new();
    e.initialize_admin(1, None, None, None).unwrap();
    e.create_study(
        42,
        5_000,
        StudyParams {
            study_id: 7,
            title: String::from("Adults only"),
            description: String::from("Age-gated study."),
            enrollment_start: 10_000,
            enrollment_end: 50_000,
            data_collection_end: 210_000,
            max_participants: 10,
            reward_amount_per_participant: 100,
        },
    )
    .unwrap();

    let mut criteria = no_criteria();
    criteria.min_age = Some(18);
    criteria.max_age = Some(65);
    // Only the researcher, and only in Draft.
    assert_eq!(
        e.set_eligibility_criteria(7, 41, criteria.clone()),
        Err(EngineError::UnauthorizedResearcher)
    );
    let mut invalid = criteria.clone();
    invalid.min_age = Some(10);
    assert_eq!(e.set_eligibility_criteria(7, 42, invalid), Err(EngineError::InvalidCriteria));
    assert_eq!(e.set_eligibility_criteria(7, 42, criteria.clone()), Ok(()));
    e.publish_study(7, 42, 6_000).unwrap();
    assert_eq!(
        e.set_eligibility_criteria(7, 42, criteria),
        Err(EngineError::InvalidStudyState)
    );

    // A proof is now demanded.
    assert_eq!(
        e.enroll(7, 501, 20_000, None, 1),
        Err(EngineError::InvalidEligibilityProof)
    );
    // Sixteen-year-olds are rejected.
    assert_eq!(
        e.enroll(7, 501, 20_000, Some(participant(16)), 1),
        Err(EngineError::NotEligible)
    );
    assert_eq!(e.studies[0].enrolled_count, 0);
    // A thirty-year-old enrolls.
    assert_eq!(e.enroll(7, 501, 20_000, Some(participant(30)), 1), Ok(()));
    assert_eq!(e.studies[0].enrolled_count, 1);
}
