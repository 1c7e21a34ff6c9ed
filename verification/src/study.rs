//! Studies and their lifecycle state machine.
//!
//! A study moves Draft → Published → Active → Closed; Archived is terminal.
//! Publication and closure are manual researcher actions; the move from
//! Published to Active is time-driven and happens once the enrollment window
//! has ended. There is no automatic transition out of Active: closing is
//! always a manual act of the researcher.

use vstd::prelude::*;

use crate::eligibility::EligibilityCriteria;
use crate::limits::MAX_PARTICIPANTS_PER_STUDY;

verus! {

/// The lifecycle phase of a study.
#[derive(Clone, Copy, Debug, PartialEq, Eq, Structural)]
pub enum StudyStatus {
    /// Created but not yet visible; the researcher may still shape it.
    Draft,
    /// Open for enrollment within the enrollment window.
    Published,
    /// In the data-collection and settlement phase.
    Active,
    /// Permanently closed to new participants and submissions.
    Closed,
    /// Retired for long-term record keeping; no transitions out.
    Archived,
}

/// A researcher-owned recruitment campaign with timing windows, capacity,
/// and counters.
#[derive(Clone, Debug, PartialEq, Eq)]
pub struct Study {
    /// Unique identifier of this study.
    pub study_id: u64,
    /// Identity of the researcher who owns the study.
    pub researcher: u64,
    /// Human-readable name, bounded in length.
    pub title: String,
    /// Detailed description, bounded in length.
    pub description: String,
    /// First moment participants may enroll (Unix timestamp).
    pub enrollment_start: i64,
    /// Last moment participants may enroll (Unix timestamp).
    pub enrollment_end: i64,
    /// Final deadline for data submission (Unix timestamp).
    pub data_collection_end: i64,
    /// Capacity: how many participants may enroll.
    pub max_participants: u32,
    /// How many participants have enrolled.
    pub enrolled_count: u32,
    /// How many participants have had their reward settled.
    pub completed_count: u32,
    /// Reward paid to each settled participant.
    pub reward_amount_per_participant: u64,
    /// Total rewards settled for this study so far.
    pub total_rewards_distributed: u64,
    /// Current lifecycle phase.
    pub status: StudyStatus,
    /// When the study was created (Unix timestamp).
    pub created_at: i64,
    /// Eligibility rules gating enrollment, if the researcher set any.
    pub criteria: Option<EligibilityCriteria>,
}

/// The caller-supplied parameters of study creation.
#[derive(Clone, Debug, PartialEq, Eq)]
pub struct StudyParams {
    /// Requested unique identifier.
    pub study_id: u64,
    /// Study title.
    pub title: String,
    /// Study description.
    pub description: String,
    /// First moment participants may enroll.
    pub enrollment_start: i64,
    /// Last moment participants may enroll.
    pub enrollment_end: i64,
    /// Final deadline for data submission.
    pub data_collection_end: i64,
    /// Participant capacity.
    pub max_participants: u32,
    /// Reward per settled participant.
    pub reward_amount_per_participant: u64,
}

impl Study {
    /// Structural soundness of a study record: positive capacity within the
    /// platform cap, enrollment within capacity, ordered time boundaries,
    /// and valid criteria where present.
    pub open spec fn spec_ok(&self) -> bool {
        &&& 0 < self.max_participants <= MAX_PARTICIPANTS_PER_STUDY
        &&& self.enrolled_count <= self.max_participants
        &&& self.enrollment_start < self.enrollment_end < self.data_collection_end
        &&& (match self.criteria {
            Some(c) => c.spec_valid(),
            None => true,
        })
    }

    /// Whether the researcher has set eligibility rules.
    pub open spec fn spec_has_criteria(&self) -> bool {
        self.criteria is Some
    }
}

/// The study as the time-driven transition leaves it: from Published it
/// becomes Active once the enrollment window has ended; every other phase,
/// and a Published study whose window is still open, is left untouched.
pub open spec fn spec_transitioned(s: Study, now: i64) -> Study {
    if s.status == StudyStatus::Published && now >= s.enrollment_end {
        Study { status: StudyStatus::Active, ..s }
    } else {
        s
    }
}

/// No two studies share an identifier.
pub open spec fn studies_unique(s: Seq<Study>) -> bool {
    forall|i: int, j: int| #![trigger s[i].study_id, s[j].study_id]
        0 <= i < j < s.len() ==> s[i].study_id != s[j].study_id
}

/// Some study in `s` has identifier `id`.
pub open spec fn has_study(s: Seq<Study>, id: u64) -> bool {
    exists|i: int| 0 <= i < s.len() && #[trigger] s[i].study_id == id
}

/// The position of the study with identifier `id`; meaningful when
/// `has_study(s, id)` holds and `s` is unique.
pub open spec fn study_index(s: Seq<Study>, id: u64) -> int {
    choose|i: int| 0 <= i < s.len() && #[trigger] s[i].study_id == id
}

/// The study with identifier `id`.
pub open spec fn study_of(s: Seq<Study>, id: u64) -> Study {
    s[study_index(s, id)]
}

/// In a unique sequence, the index of a study with a matching identifier
/// is the one `study_index` names.
pub proof fn lemma_study_index(s: Seq<Study>, id: u64, i: int)
    requires
        studies_unique(s),
        0 <= i < s.len(),
        s[i].study_id == id,
    ensures
        has_study(s, id),
        study_index(s, id) == i,
{
    assert(has_study(s, id));
    let j = study_index(s, id);
    assert(0 <= j < s.len() && s[j].study_id == id);
    if i < j {
        assert(s[i].study_id != s[j].study_id);
    } else if j < i {
        assert(s[j].study_id != s[i].study_id);
    }
}

/// Appending a study with a fresh identifier keeps the sequence unique.
pub proof fn lemma_studies_push_unique(s: Seq<Study>, x: Study)
    requires
        studies_unique(s),
        !has_study(s, x.study_id),
    ensures
        studies_unique(s.push(x)),
{
    assert forall|i: int, j: int| #![trigger s.push(x)[i].study_id, s.push(x)[j].study_id]
        0 <= i < j < s.push(x).len() implies s.push(x)[i].study_id != s.push(x)[j].study_id by {
        if j < s.len() {
            assert(s.push(x)[i] == s[i]);
            assert(s.push(x)[j] == s[j]);
        } else {
            assert(s.push(x)[i] == s[i]);
            assert(s.push(x)[j] == x);
            if s[i].study_id == x.study_id {
                assert(has_study(s, x.study_id));
            }
        }
    }
}

/// Appending a study preserves the presence of every existing one.
pub proof fn lemma_has_study_push(s: Seq<Study>, x: Study, id: u64)
    requires
        has_study(s, id),
    ensures
        has_study(s.push(x), id),
{
    let i = choose|i: int| 0 <= i < s.len() && #[trigger] s[i].study_id == id;
    assert(s.push(x)[i].study_id == id);
}

/// Replacing a study with one of the same identifier keeps the sequence
/// unique and leaves every identifier's presence as it was.
pub proof fn lemma_studies_update_same_id(s: Seq<Study>, i: int, x: Study)
    requires
        studies_unique(s),
        0 <= i < s.len(),
        x.study_id == s[i].study_id,
    ensures
        studies_unique(s.update(i, x)),
        forall|id: u64| #[trigger] has_study(s.update(i, x), id) == has_study(s, id),
{
    let t = s.update(i, x);
    assert forall|a: int, b: int| #![trigger t[a].study_id, t[b].study_id]
        0 <= a < b < t.len() implies t[a].study_id != t[b].study_id by {
        assert(s[a].study_id != s[b].study_id);
    }
    assert forall|id: u64| #[trigger] has_study(t, id) == has_study(s, id) by {
        if has_study(s, id) {
            let k = choose|k: int| 0 <= k < s.len() && #[trigger] s[k].study_id == id;
            if k == i {
                assert(t[i].study_id == id);
            } else {
                assert(t[k].study_id == id);
            }
        }
        if has_study(t, id) {
            let k = choose|k: int| 0 <= k < t.len() && #[trigger] t[k].study_id == id;
            if k == i {
                assert(s[i].study_id == id);
            } else {
                assert(s[k].study_id == id);
            }
        }
    }
}

/// Finds the position of the study with identifier `id`, if one exists.
pub fn find_study(studies: &Vec<Study>, id: u64) -> (r: Option<usize>)
    ensures
        (match r {
            Some(i) => i < studies@.len() && studies@[i as int].study_id == id,
            None => !has_study(studies@, id),
        }),
{
    let n = studies.len();
    let mut k: usize = 0;
    while k < n
        invariant
            n == studies@.len(),
            k <= n,
            forall|i: int| 0 <= i < k ==> #[trigger] studies@[i].study_id != id,
        decreases n - k,
    {
        if studies[k].study_id == id {
            return Some(k);
        }
        k = k + 1;
    }
    None
}

} // verus!
