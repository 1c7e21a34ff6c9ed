//! Typed failures of the engine.
//!
//! Every operation detects its error before any mutation and aborts whole:
//! a failed call leaves the ledger exactly as it was. Each error carries a
//! class ([`ErrorKind`]) and a human-readable reason string.

use vstd::prelude::*;

verus! {

/// The broad classes of the error taxonomy.
#[derive(Clone, Copy, Debug, PartialEq, Eq, Structural)]
pub enum ErrorKind {
    /// Malformed or out-of-bound input.
    Validation,
    /// The actor is not the expected researcher or participant.
    Authorization,
    /// The operation is invalid for the current study phase or timing.
    State,
    /// Malformed eligibility proof or content identifier.
    Data,
    /// A participant-level conflict: revoked consent, duplicate record.
    Participant,
    /// Insufficient deposit or balance, or an already-claimed reward.
    Funds,
    /// A counter would overflow.
    Arithmetic,
}

/// Every failure an engine operation can report.
#[derive(Clone, Copy, Debug, PartialEq, Eq, Structural)]
pub enum EngineError {
    /// The study title exceeds the maximum length.
    TitleTooLong,
    /// The study description exceeds the maximum length.
    DescriptionTooLong,
    /// The enrollment start is not in the future.
    InvalidEnrollmentStart,
    /// The enrollment end does not come after the enrollment start.
    InvalidEnrollmentEnd,
    /// The enrollment window is shorter than the platform minimum.
    InvalidEnrollmentPeriod,
    /// The data-collection end does not come after the enrollment end.
    InvalidDataCollectionEnd,
    /// The total study duration falls outside the configured bounds.
    InvalidStudyDuration,
    /// The participant cap is zero or exceeds the platform cap.
    InvalidMaxParticipants,
    /// An eligibility rule is out of bounds or self-contradictory.
    InvalidCriteria,
    /// The protocol fee exceeds its cap.
    ExcessiveProtocolFee,
    /// The maximum study duration does not exceed the minimum.
    InvalidDurationBounds,
    /// No study with the given identifier exists.
    StudyNotFound,
    /// No consent record exists for the given study and participant.
    ConsentNotFound,
    /// No submission record exists for the given study and participant.
    SubmissionNotFound,
    /// No reward vault exists for the given study.
    VaultNotFound,
    /// Only the study's researcher may perform this action.
    UnauthorizedResearcher,
    /// Only the enrolled participant may perform this action.
    UnauthorizedParticipant,
    /// The actor is neither the researcher nor the participant.
    UnauthorizedActor,
    /// The global configuration has not been created yet.
    AdminNotInitialized,
    /// The global configuration has already been created.
    AdminAlreadyInitialized,
    /// A study with this identifier already exists.
    StudyAlreadyExists,
    /// The study is not in a state that allows this operation.
    InvalidStudyState,
    /// The study must be published before participants can enroll.
    StudyNotPublished,
    /// The study has reached its participant capacity.
    StudyFull,
    /// The current time is outside the enrollment window.
    EnrollmentClosed,
    /// The data-collection deadline has passed.
    DataCollectionClosed,
    /// The settlement cooldown since submission has not elapsed.
    CooldownNotElapsed,
    /// A reward vault for this study already exists.
    VaultAlreadyExists,
    /// The study demands an eligibility proof and none was supplied.
    InvalidEligibilityProof,
    /// The content identifier fails format validation.
    InvalidContentId,
    /// The submitted data hash is all zero.
    InvalidDataHash,
    /// The participant does not meet the study's eligibility criteria.
    NotEligible,
    /// A consent record for this study and participant already exists.
    AlreadyEnrolled,
    /// The consent has been revoked (or already was).
    ConsentRevoked,
    /// A submission for this study and participant already exists,
    /// or one exists where it forbids the operation.
    AlreadySubmitted,
    /// The deposit or balance does not cover what the operation needs.
    InsufficientFunds,
    /// The reward for this submission has already been paid out.
    AlreadyClaimed,
    /// A counter or total would overflow its machine width.
    ArithmeticOverflow,
}

impl EngineError {
    /// The class this error belongs to.
    pub open spec fn spec_kind(&self) -> ErrorKind {
        match self {
            EngineError::TitleTooLong => ErrorKind::Validation,
            EngineError::DescriptionTooLong => ErrorKind::Validation,
            EngineError::InvalidEnrollmentStart => ErrorKind::Validation,
            EngineError::InvalidEnrollmentEnd => ErrorKind::Validation,
            EngineError::InvalidEnrollmentPeriod => ErrorKind::Validation,
            EngineError::InvalidDataCollectionEnd => ErrorKind::Validation,
            EngineError::InvalidStudyDuration => ErrorKind::Validation,
            EngineError::InvalidMaxParticipants => ErrorKind::Validation,
            EngineError::InvalidCriteria => ErrorKind::Validation,
            EngineError::ExcessiveProtocolFee => ErrorKind::Validation,
            EngineError::InvalidDurationBounds => ErrorKind::Validation,
            EngineError::StudyNotFound => ErrorKind::Validation,
            EngineError::ConsentNotFound => ErrorKind::Validation,
            EngineError::SubmissionNotFound => ErrorKind::Validation,
            EngineError::VaultNotFound => ErrorKind::Validation,
            EngineError::UnauthorizedResearcher => ErrorKind::Authorization,
            EngineError::UnauthorizedParticipant => ErrorKind::Authorization,
            EngineError::UnauthorizedActor => ErrorKind::Authorization,
            EngineError::AdminNotInitialized => ErrorKind::State,
            EngineError::AdminAlreadyInitialized => ErrorKind::State,
            EngineError::StudyAlreadyExists => ErrorKind::State,
            EngineError::InvalidStudyState => ErrorKind::State,
            EngineError::StudyNotPublished => ErrorKind::State,
            EngineError::StudyFull => ErrorKind::State,
            EngineError::EnrollmentClosed => ErrorKind::State,
            EngineError::DataCollectionClosed => ErrorKind::State,
            EngineError::CooldownNotElapsed => ErrorKind::State,
            EngineError::VaultAlreadyExists => ErrorKind::State,
            EngineError::InvalidEligibilityProof => ErrorKind::Data,
            EngineError::InvalidContentId => ErrorKind::Data,
            EngineError::InvalidDataHash => ErrorKind::Data,
            EngineError::NotEligible => ErrorKind::Participant,
            EngineError::AlreadyEnrolled => ErrorKind::Participant,
            EngineError::ConsentRevoked => ErrorKind::Participant,
            EngineError::AlreadySubmitted => ErrorKind::Participant,
            EngineError::InsufficientFunds => ErrorKind::Funds,
            EngineError::AlreadyClaimed => ErrorKind::Funds,
            EngineError::ArithmeticOverflow => ErrorKind::Arithmetic,
        }
    }

    /// The class this error belongs to.
    pub fn kind(&self) -> (k: ErrorKind)
        ensures
            k == self.spec_kind(),
    {
        match self {
            EngineError::TitleTooLong => ErrorKind::Validation,
            EngineError::DescriptionTooLong => ErrorKind::Validation,
            EngineError::InvalidEnrollmentStart => ErrorKind::Validation,
            EngineError::InvalidEnrollmentEnd => ErrorKind::Validation,
            EngineError::InvalidEnrollmentPeriod => ErrorKind::Validation,
            EngineError::InvalidDataCollectionEnd => ErrorKind::Validation,
            EngineError::InvalidStudyDuration => ErrorKind::Validation,
            EngineError::InvalidMaxParticipants => ErrorKind::Validation,
            EngineError::InvalidCriteria => ErrorKind::Validation,
            EngineError::ExcessiveProtocolFee => ErrorKind::Validation,
            EngineError::InvalidDurationBounds => ErrorKind::Validation,
            EngineError::StudyNotFound => ErrorKind::Validation,
            EngineError::ConsentNotFound => ErrorKind::Validation,
            EngineError::SubmissionNotFound => ErrorKind::Validation,
            EngineError::VaultNotFound => ErrorKind::Validation,
            EngineError::UnauthorizedResearcher => ErrorKind::Authorization,
            EngineError::UnauthorizedParticipant => ErrorKind::Authorization,
            EngineError::UnauthorizedActor => ErrorKind::Authorization,
            EngineError::AdminNotInitialized => ErrorKind::State,
            EngineError::AdminAlreadyInitialized => ErrorKind::State,
            EngineError::StudyAlreadyExists => ErrorKind::State,
            EngineError::InvalidStudyState => ErrorKind::State,
            EngineError::StudyNotPublished => ErrorKind::State,
            EngineError::StudyFull => ErrorKind::State,
            EngineError::EnrollmentClosed => ErrorKind::State,
            EngineError::DataCollectionClosed => ErrorKind::State,
            EngineError::CooldownNotElapsed => ErrorKind::State,
            EngineError::VaultAlreadyExists => ErrorKind::State,
            EngineError::InvalidEligibilityProof => ErrorKind::Data,
            EngineError::InvalidContentId => ErrorKind::Data,
            EngineError::InvalidDataHash => ErrorKind::Data,
            EngineError::NotEligible => ErrorKind::Participant,
            EngineError::AlreadyEnrolled => ErrorKind::Participant,
            EngineError::ConsentRevoked => ErrorKind::Participant,
            EngineError::AlreadySubmitted => ErrorKind::Participant,
            EngineError::InsufficientFunds => ErrorKind::Funds,
            EngineError::AlreadyClaimed => ErrorKind::Funds,
            EngineError::ArithmeticOverflow => ErrorKind::Arithmetic,
        }
    }

    /// A human-readable reason string for this error; never empty.
    pub fn message(&self) -> (r: String)
        ensures
            r@.len() > 0,
    {
        let text: &str = match self {
            EngineError::TitleTooLong => "study title exceeds the maximum length",
            EngineError::DescriptionTooLong => "study description exceeds the maximum length",
            EngineError::InvalidEnrollmentStart => "enrollment start must be in the future",
            EngineError::InvalidEnrollmentEnd => "enrollment end must come after enrollment start",
            EngineError::InvalidEnrollmentPeriod => "enrollment window is shorter than the minimum",
            EngineError::InvalidDataCollectionEnd => "data collection end must come after enrollment end",
            EngineError::InvalidStudyDuration => "total study duration is outside the configured bounds",
            EngineError::InvalidMaxParticipants => "participant cap must be positive and within the platform cap",
            EngineError::InvalidCriteria => "eligibility criteria are out of bounds or contradictory",
            EngineError::ExcessiveProtocolFee => "protocol fee exceeds the maximum allowed rate",
            EngineError::InvalidDurationBounds => "maximum study duration must exceed the minimum",
            EngineError::StudyNotFound => "no study with this identifier exists",
            EngineError::ConsentNotFound => "no consent record exists for this study and participant",
            EngineError::SubmissionNotFound => "no submission exists for this study and participant",
            EngineError::VaultNotFound => "no reward vault exists for this study",
            EngineError::UnauthorizedResearcher => "only the study researcher can perform this action",
            EngineError::UnauthorizedParticipant => "only the enrolled participant can perform this action",
            EngineError::UnauthorizedActor => "only the researcher or the participant can perform this action",
            EngineError::AdminNotInitialized => "the protocol configuration has not been initialized",
            EngineError::AdminAlreadyInitialized => "the protocol configuration already exists",
            EngineError::StudyAlreadyExists => "a study with this identifier already exists",
            EngineError::InvalidStudyState => "the study is not in the required state for this operation",
            EngineError::StudyNotPublished => "the study must be published before participants can enroll",
            EngineError::StudyFull => "the study has reached its participant capacity",
            EngineError::EnrollmentClosed => "the current time is outside the enrollment window",
            EngineError::DataCollectionClosed => "the data collection deadline has passed",
            EngineError::CooldownNotElapsed => "the settlement cooldown has not elapsed yet",
            EngineError::VaultAlreadyExists => "a reward vault for this study already exists",
            EngineError::InvalidEligibilityProof => "eligibility proof is missing or malformed",
            EngineError::InvalidContentId => "content identifier format is invalid",
            EngineError::InvalidDataHash => "submitted data hash must not be all zero",
            EngineError::NotEligible => "participant does not meet the eligibility criteria",
            EngineError::AlreadyEnrolled => "a consent for this study and participant already exists",
            EngineError::ConsentRevoked => "the consent is revoked or not active",
            EngineError::AlreadySubmitted => "data has already been submitted for this study",
            EngineError::InsufficientFunds => "insufficient deposit or balance for this operation",
            EngineError::AlreadyClaimed => "the reward has already been claimed for this submission",
            EngineError::ArithmeticOverflow => "a counter would overflow",
        };
        proof {
            reveal_strlit("study title exceeds the maximum length");
            reveal_strlit("study description exceeds the maximum length");
            reveal_strlit("enrollment start must be in the future");
            reveal_strlit("enrollment end must come after enrollment start");
            reveal_strlit("enrollment window is shorter than the minimum");
            reveal_strlit("data collection end must come after enrollment end");
            reveal_strlit("total study duration is outside the configured bounds");
            reveal_strlit("participant cap must be positive and within the platform cap");
            reveal_strlit("eligibility criteria are out of bounds or contradictory");
            reveal_strlit("protocol fee exceeds the maximum allowed rate");
            reveal_strlit("maximum study duration must exceed the minimum");
            reveal_strlit("no study with this identifier exists");
            reveal_strlit("no consent record exists for this study and participant");
            reveal_strlit("no submission exists for this study and participant");
            reveal_strlit("no reward vault exists for this study");
            reveal_strlit("only the study researcher can perform this action");
            reveal_strlit("only the enrolled participant can perform this action");
            reveal_strlit("only the researcher or the participant can perform this action");
            reveal_strlit("the protocol configuration has not been initialized");
            reveal_strlit("the protocol configuration already exists");
            reveal_strlit("a study with this identifier already exists");
            reveal_strlit("the study is not in the required state for this operation");
            reveal_strlit("the study must be published before participants can enroll");
            reveal_strlit("the study has reached its participant capacity");
            reveal_strlit("the current time is outside the enrollment window");
            reveal_strlit("the data collection deadline has passed");
            reveal_strlit("the settlement cooldown has not elapsed yet");
            reveal_strlit("a reward vault for this study already exists");
            reveal_strlit("eligibility proof is missing or malformed");
            reveal_strlit("content identifier format is invalid");
            reveal_strlit("submitted data hash must not be all zero");
            reveal_strlit("participant does not meet the eligibility criteria");
            reveal_strlit("a consent for this study and participant already exists");
            reveal_strlit("the consent is revoked or not active");
            reveal_strlit("data has already been submitted for this study");
            reveal_strlit("insufficient deposit or balance for this operation");
            reveal_strlit("the reward has already been claimed for this submission");
            reveal_strlit("a counter would overflow");
        }
        text.to_owned()
    }
}

} // verus!
