//! Read-only derived views over the record store: study progress, consent
//! status, and protocol statistics. Nothing here mutates anything.
//!
//! Progress figures are integer percentages (value in 0..=100, rounded
//! down); remaining times are clamped into the non-negative `i64` range.

use vstd::prelude::*;

use crate::admin::AdminConfig;
use crate::engine::Engine;
use crate::errors::EngineError;
use crate::records::consent_of;
use crate::records::find_consent;
use crate::records::has_consent;
use crate::study::Study;
use crate::study::StudyStatus;
use crate::study::find_study;
use crate::study::has_study;
use crate::study::lemma_study_index;
use crate::study::study_of;

verus! {

/// The phase a study is in, as derived from its status and the clock.
#[derive(Clone, Copy, Debug, PartialEq, Eq, Structural)]
pub enum StudyPhase {
    /// Not yet published.
    Draft,
    /// Published, enrollment window not yet open.
    PreEnrollment,
    /// Enrollment window open.
    EnrollmentOpen,
    /// Enrollment over, data collection running.
    DataCollection,
    /// Data collection deadline passed.
    Completed,
}

impl StudyPhase {
    /// The phase's display name.
    pub fn name(&self) -> (r: String)
        ensures
            (match self {
                StudyPhase::Draft => r@ == "Draft"@,
                StudyPhase::PreEnrollment => r@ == "Pre-Enrollment"@,
                StudyPhase::EnrollmentOpen => r@ == "Enrollment Active"@,
                StudyPhase::DataCollection => r@ == "Data Collection"@,
                StudyPhase::Completed => r@ == "Completed"@,
            }),
    {
        let text: &str = match self {
            StudyPhase::Draft => "Draft",
            StudyPhase::PreEnrollment => "Pre-Enrollment",
            StudyPhase::EnrollmentOpen => "Enrollment Active",
            StudyPhase::DataCollection => "Data Collection",
            StudyPhase::Completed => "Completed",
        };
        text.to_owned()
    }
}

/// A study's details and progress, derived at one clock reading.
#[derive(Clone, Debug, PartialEq, Eq)]
pub struct StudyInfo {
    /// The study's identifier.
    pub study_id: u64,
    /// The study's title.
    pub title: String,
    /// The study's description.
    pub description: String,
    /// The owning researcher.
    pub researcher: u64,
    /// The stored lifecycle status.
    pub status: StudyStatus,
    /// How full the study is, in whole percent (0..=100).
    pub participants_percentage: u8,
    /// How much of the enrollment window has elapsed, in whole percent.
    pub time_percentage: u8,
    /// Whether the clock reads within the enrollment window.
    pub is_enrollment_open: bool,
    /// Seconds until the enrollment window opens; zero once it has.
    pub until_enrollment_start: i64,
    /// Seconds until the enrollment window closes; zero once it has.
    pub until_enrollment_end: i64,
    /// Seconds until the data-collection deadline; zero once passed.
    pub until_data_collection_end: i64,
    /// The derived phase.
    pub phase: StudyPhase,
    /// Participant capacity.
    pub max_participants: u32,
    /// Enrolled participants.
    pub enrolled_count: u32,
    /// Settled participants.
    pub completed_count: u32,
    /// Reward per settled participant.
    pub reward_amount: u64,
    /// Creation time.
    pub created_at: i64,
}

/// A participant's consent standing in a study.
#[derive(Clone, Copy, Debug, PartialEq, Eq, Structural)]
pub struct ConsentStatus {
    /// A consent record exists (always true when this view is returned).
    pub has_consented: bool,
    /// Whether the consent was revoked.
    pub is_revoked: bool,
    /// When consent was given.
    pub consent_timestamp: i64,
    /// The study the consent belongs to.
    pub study_id: u64,
    /// The participant.
    pub participant: u64,
}

/// The protocol's configuration and aggregate counters.
#[derive(Clone, Copy, Debug, PartialEq, Eq, Structural)]
pub struct ProtocolStats {
    /// The protocol administrator.
    pub admin: u64,
    /// Protocol fee in basis points.
    pub protocol_fee_bps: u16,
    /// Lower bound on total study duration.
    pub min_study_duration: u64,
    /// Upper bound on total study duration.
    pub max_study_duration: u64,
    /// Studies created so far.
    pub total_studies: u64,
    /// Enrollments so far.
    pub total_participants: u64,
    /// Rewards settled so far.
    pub total_rewards_distributed: u64,
}

/// Whole-percent share of `part` in `whole`, rounded down; `whole` must be
/// positive and no smaller than `part`.
pub open spec fn spec_pct(part: int, whole: int) -> int {
    part * 100 / whole
}

/// How much of the window [`start`, `end`] has elapsed at `now`, in whole
/// percent, clamped to 0..=100.
pub open spec fn spec_time_pct(start: i64, end: i64, now: i64) -> int {
    if end <= start {
        0
    } else if now <= start {
        0
    } else if now >= end {
        100
    } else {
        spec_pct(now - start, end - start)
    }
}

/// Seconds from `now` to `deadline`, clamped into 0..=`i64::MAX`.
pub open spec fn spec_remaining(deadline: i64, now: i64) -> i64 {
    if deadline <= now {
        0
    } else if deadline - now > i64::MAX {
        i64::MAX
    } else {
        (deadline - now) as i64
    }
}

/// The phase of a study at clock reading `now`.
pub open spec fn spec_phase(s: &Study, now: i64) -> StudyPhase {
    if s.status == StudyStatus::Draft {
        StudyPhase::Draft
    } else if now < s.enrollment_start {
        StudyPhase::PreEnrollment
    } else if now <= s.enrollment_end {
        StudyPhase::EnrollmentOpen
    } else if now <= s.data_collection_end {
        StudyPhase::DataCollection
    } else {
        StudyPhase::Completed
    }
}

/// Seconds from `now` to `deadline`, clamped into 0..=`i64::MAX`.
fn remaining(deadline: i64, now: i64) -> (r: i64)
    ensures
        r == spec_remaining(deadline, now),
{
    if deadline <= now {
        0
    } else {
        let d: i128 = deadline as i128 - now as i128;
        if d > i64::MAX as i128 {
            i64::MAX
        } else {
            d as i64
        }
    }
}

impl Engine {
    /// A study's details and progress at clock reading `now`, or
    /// `StudyNotFound`. Every figure is pinned: the percentages are the
    /// integer shares of capacity used and enrollment time elapsed, the
    /// remaining times are clamped differences, and the phase follows the
    /// status and the window boundaries.
    pub fn get_study_info(&self, study_id: u64, now: i64) -> (result: Result<
        StudyInfo,
        EngineError,
    >)
        requires
            self.wf(),
        ensures
            (match result {
                Err(e) => e == EngineError::StudyNotFound && !has_study(self.studies@, study_id),
                Ok(info) => {
                    let s = study_of(self.studies@, study_id);
                    &&& has_study(self.studies@, study_id)
                    &&& info.study_id == s.study_id
                    &&& info.title@ == s.title@
                    &&& info.description@ == s.description@
                    &&& info.researcher == s.researcher
                    &&& info.status == s.status
                    &&& info.participants_percentage == spec_pct(
                        s.enrolled_count as int,
                        s.max_participants as int,
                    )
                    &&& info.time_percentage == spec_time_pct(
                        s.enrollment_start,
                        s.enrollment_end,
                        now,
                    )
                    &&& info.is_enrollment_open == (s.enrollment_start <= now
                        <= s.enrollment_end)
                    &&& info.until_enrollment_start == spec_remaining(s.enrollment_start, now)
                    &&& info.until_enrollment_end == spec_remaining(s.enrollment_end, now)
                    &&& info.until_data_collection_end == spec_remaining(
                        s.data_collection_end,
                        now,
                    )
                    &&& info.phase == spec_phase(&s, now)
                    &&& info.max_participants == s.max_participants
                    &&& info.enrolled_count == s.enrolled_count
                    &&& info.completed_count == s.completed_count
                    &&& info.reward_amount == s.reward_amount_per_participant
                    &&& info.created_at == s.created_at
                },
            }),
    {
        let i = match find_study(&self.studies, study_id) {
            Some(i) => i,
            None => {
                return Err(EngineError::StudyNotFound);
            },
        };
        proof {
            lemma_study_index(self.studies@, study_id, i as int);
            assert(self.studies@[i as int].spec_ok());
        }
        let s = &self.studies[i];
        let enrolled = s.enrolled_count;
        let max_p = s.max_participants;
        proof {
            assert((enrolled as int) * 100 / (max_p as int) <= 100 && (enrolled as int) * 100 / (
            max_p as int) >= 0) by (nonlinear_arith)
                requires
                    0 < max_p,
                    enrolled <= max_p,
            ;
        }
        let ppct: u8 = ((enrolled as u64) * 100 / (max_p as u64)) as u8;
        let tpct: u8 = if s.enrollment_end <= s.enrollment_start {
            0
        } else if now <= s.enrollment_start {
            0
        } else if now >= s.enrollment_end {
            100
        } else {
            let num: i128 = (now as i128 - s.enrollment_start as i128) * 100;
            let den: i128 = s.enrollment_end as i128 - s.enrollment_start as i128;
            proof {
                assert(0 <= (now - s.enrollment_start) * 100 / (s.enrollment_end
                    - s.enrollment_start) <= 100) by (nonlinear_arith)
                    requires
                        s.enrollment_start < now < s.enrollment_end,
                ;
            }
            (num / den) as u8
        };
        Ok(
            StudyInfo {
                study_id: s.study_id,
                title: s.title.clone(),
                description: s.description.clone(),
                researcher: s.researcher,
                status: s.status,
                participants_percentage: ppct,
                time_percentage: tpct,
                is_enrollment_open: s.enrollment_start <= now && now <= s.enrollment_end,
                until_enrollment_start: remaining(s.enrollment_start, now),
                until_enrollment_end: remaining(s.enrollment_end, now),
                until_data_collection_end: remaining(s.data_collection_end, now),
                phase: if s.status == StudyStatus::Draft {
                    StudyPhase::Draft
                } else if now < s.enrollment_start {
                    StudyPhase::PreEnrollment
                } else if now <= s.enrollment_end {
                    StudyPhase::EnrollmentOpen
                } else if now <= s.data_collection_end {
                    StudyPhase::DataCollection
                } else {
                    StudyPhase::Completed
                },
                max_participants: max_p,
                enrolled_count: enrolled,
                completed_count: s.completed_count,
                reward_amount: s.reward_amount_per_participant,
                created_at: s.created_at,
            },
        )
    }

    /// A participant's consent standing in a study, or `ConsentNotFound`.
    pub fn get_consent_status(&self, study_id: u64, participant: u64) -> (result: Result<
        ConsentStatus,
        EngineError,
    >)
        requires
            self.wf(),
        ensures
            (match result {
                Err(e) => e == EngineError::ConsentNotFound && !has_consent(
                    self.consents@,
                    study_id,
                    participant,
                ),
                Ok(cs) => {
                    let c = consent_of(self.consents@, study_id, participant);
                    &&& has_consent(self.consents@, study_id, participant)
                    &&& cs.has_consented
                    &&& cs.is_revoked == c.is_revoked
                    &&& cs.consent_timestamp == c.timestamp
                    &&& cs.study_id == study_id
                    &&& cs.participant == participant
                },
            }),
    {
        let i = match find_consent(&self.consents, study_id, participant) {
            Some(i) => i,
            None => {
                return Err(EngineError::ConsentNotFound);
            },
        };
        proof {
            crate::records::lemma_consent_index(self.consents@, study_id, participant, i as int);
        }
        let c = &self.consents[i];
        Ok(
            ConsentStatus {
                has_consented: true,
                is_revoked: c.is_revoked,
                consent_timestamp: c.timestamp,
                study_id,
                participant,
            },
        )
    }

    /// The protocol's configuration and counters, or `AdminNotInitialized`.
    pub fn get_protocol_stats(&self) -> (result: Result<ProtocolStats, EngineError>)
        ensures
            (match result {
                Err(e) => e == EngineError::AdminNotInitialized && self.admin is None,
                Ok(ps) => {
                    let a = self.admin.unwrap();
                    &&& self.admin is Some
                    &&& ps == (ProtocolStats {
                        admin: a.admin,
                        protocol_fee_bps: a.protocol_fee_bps,
                        min_study_duration: a.min_study_duration,
                        max_study_duration: a.max_study_duration,
                        total_studies: a.total_studies,
                        total_participants: a.total_participants,
                        total_rewards_distributed: a.total_rewards_distributed,
                    })
                },
            }),
    {
        let a = match self.admin {
            Some(a) => a,
            None => {
                return Err(EngineError::AdminNotInitialized);
            },
        };
        Ok(
            ProtocolStats {
                admin: a.admin,
                protocol_fee_bps: a.protocol_fee_bps,
                min_study_duration: a.min_study_duration,
                max_study_duration: a.max_study_duration,
                total_studies: a.total_studies,
                total_participants: a.total_participants,
                total_rewards_distributed: a.total_rewards_distributed,
            },
        )
    }
}

} // verus!
