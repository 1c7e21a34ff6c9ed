//! The eligibility evaluator: a pure rule-check of a participant's declared
//! attributes against a study's criteria record.
//!
//! Every defined criterion must pass; a criteria record with no field set
//! accepts everyone. String-valued rules compare case-insensitively. A
//! participant whose optional attribute list is absent fails every custom
//! requirement (the strict reading of "must declare").

use vstd::prelude::*;

use crate::casefold::ci_eq;
use crate::casefold::eq_ignore_case;
use crate::limits::MAX_CRITERIA_AGE;
use crate::limits::MIN_CRITERIA_AGE;

verus! {

/// Researcher-defined constraints a participant must satisfy to enroll.
/// An absent field means "no constraint on that dimension".
#[derive(Clone, Debug, PartialEq, Eq)]
pub struct EligibilityCriteria {
    /// Minimum age, inclusive.
    pub min_age: Option<u8>,
    /// Maximum age, inclusive.
    pub max_age: Option<u8>,
    /// The single accepted gender, compared case-insensitively.
    pub gender: Option<String>,
    /// The single accepted location, compared case-insensitively.
    pub location: Option<String>,
    /// The single accepted education level, compared case-insensitively.
    pub education_level: Option<String>,
    /// The single accepted employment status, compared case-insensitively.
    pub employment_status: Option<String>,
    /// Medical conditions the participant must not report.
    pub excluded_conditions: Option<Vec<String>>,
    /// Attributes the participant must declare among their additional info.
    pub custom_requirements: Option<Vec<String>>,
}

/// A participant's declared attributes, checked against the criteria.
#[derive(Clone, Debug, PartialEq, Eq)]
pub struct ParticipantInfo {
    /// Age in years.
    pub age: u8,
    /// Declared gender.
    pub gender: String,
    /// Declared location.
    pub location: String,
    /// Declared education level.
    pub education_level: String,
    /// Declared employment status.
    pub employment_status: String,
    /// Reported medical conditions.
    pub medical_conditions: Vec<String>,
    /// Further declared attributes, if any.
    pub additional_info: Option<Vec<String>>,
}

impl EligibilityCriteria {
    /// A valid criteria record: age bounds within the platform limits and
    /// not contradictory.
    pub open spec fn spec_valid(&self) -> bool {
        &&& (match self.min_age {
            Some(a) => a >= MIN_CRITERIA_AGE,
            None => true,
        })
        &&& (match self.max_age {
            Some(a) => a <= MAX_CRITERIA_AGE,
            None => true,
        })
        &&& (match (self.min_age, self.max_age) {
            (Some(lo), Some(hi)) => lo <= hi,
            _ => true,
        })
    }

    /// Checks that the age bounds are within the platform limits and not
    /// contradictory.
    pub fn validate(&self) -> (r: bool)
        ensures
            r == self.spec_valid(),
    {
        let min_ok = match self.min_age {
            Some(a) => a >= MIN_CRITERIA_AGE,
            None => true,
        };
        let max_ok = match self.max_age {
            Some(a) => a <= MAX_CRITERIA_AGE,
            None => true,
        };
        let order_ok = match (self.min_age, self.max_age) {
            (Some(lo), Some(hi)) => lo <= hi,
            _ => true,
        };
        min_ok && max_ok && order_ok
    }
}

/// Whether the participant reports a condition equal (up to case) to `cond`.
pub open spec fn spec_reports_condition(info: &ParticipantInfo, cond: Seq<char>) -> bool {
    exists|i: int|
        0 <= i < info.medical_conditions@.len() && ci_eq(#[trigger] info.medical_conditions@[i]@, cond)
}

/// Whether the participant declares an attribute equal (up to case) to `req`.
/// With no attribute list declared, nothing is declared.
pub open spec fn spec_declares_attribute(info: &ParticipantInfo, req: Seq<char>) -> bool {
    match info.additional_info {
        Some(list) => exists|i: int| 0 <= i < list@.len() && ci_eq(#[trigger] list@[i]@, req),
        None => false,
    }
}

/// True exactly when every defined criterion passes.
pub open spec fn spec_eligible(c: &EligibilityCriteria, p: &ParticipantInfo) -> bool {
    &&& (match c.min_age {
        Some(a) => p.age >= a,
        None => true,
    })
    &&& (match c.max_age {
        Some(a) => p.age <= a,
        None => true,
    })
    &&& (match c.gender {
        Some(g) => ci_eq(p.gender@, g@),
        None => true,
    })
    &&& (match c.location {
        Some(l) => ci_eq(p.location@, l@),
        None => true,
    })
    &&& (match c.education_level {
        Some(e) => ci_eq(p.education_level@, e@),
        None => true,
    })
    &&& (match c.employment_status {
        Some(e) => ci_eq(p.employment_status@, e@),
        None => true,
    })
    &&& (match c.excluded_conditions {
        Some(list) => forall|i: int|
            0 <= i < list@.len() ==> !spec_reports_condition(p, #[trigger] list@[i]@),
        None => true,
    })
    &&& (match c.custom_requirements {
        Some(list) => forall|i: int|
            0 <= i < list@.len() ==> spec_declares_attribute(p, #[trigger] list@[i]@),
        None => true,
    })
}

/// Whether `list` holds a string equal to `needle` ignoring case.
fn contains_ci(list: &Vec<String>, needle: &str) -> (r: bool)
    ensures
        r == exists|i: int| 0 <= i < list@.len() && ci_eq(#[trigger] list@[i]@, needle@),
{
    let n = list.len();
    let mut k: usize = 0;
    while k < n
        invariant
            n == list@.len(),
            k <= n,
            forall|i: int| 0 <= i < k ==> !ci_eq(#[trigger] list@[i]@, needle@),
        decreases n - k,
    {
        if eq_ignore_case(list[k].as_str(), needle) {
            return true;
        }
        k = k + 1;
    }
    false
}

/// Evaluates the criteria against the participant's declared attributes.
/// Deterministic and side-effect free; true exactly when every defined
/// criterion passes.
#[verifier::loop_isolation(false)]
pub fn evaluate(c: &EligibilityCriteria, p: &ParticipantInfo) -> (r: bool)
    ensures
        r == spec_eligible(c, p),
{
    match c.min_age {
        Some(a) => {
            if p.age < a {
                return false;
            }
        },
        None => {},
    }
    match c.max_age {
        Some(a) => {
            if p.age > a {
                return false;
            }
        },
        None => {},
    }
    match &c.gender {
        Some(g) => {
            if !eq_ignore_case(p.gender.as_str(), g.as_str()) {
                return false;
            }
        },
        None => {},
    }
    match &c.location {
        Some(l) => {
            if !eq_ignore_case(p.location.as_str(), l.as_str()) {
                return false;
            }
        },
        None => {},
    }
    match &c.education_level {
        Some(e) => {
            if !eq_ignore_case(p.education_level.as_str(), e.as_str()) {
                return false;
            }
        },
        None => {},
    }
    match &c.employment_status {
        Some(e) => {
            if !eq_ignore_case(p.employment_status.as_str(), e.as_str()) {
                return false;
            }
        },
        None => {},
    }
    match &c.excluded_conditions {
        Some(list) => {
            let n = list.len();
            let mut k: usize = 0;
            while k < n
                invariant
                    n == list@.len(),
                    k <= n,
                    forall|i: int| 0 <= i < k ==> !spec_reports_condition(p, #[trigger] list@[i]@),
                decreases n - k,
            {
                if contains_ci(&p.medical_conditions, list[k].as_str()) {
                    proof {
                        assert(spec_reports_condition(p, list@[k as int]@));
                    }
                    return false;
                }
                k = k + 1;
            }
        },
        None => {},
    }
    match &c.custom_requirements {
        Some(list) => {
            let n = list.len();
            let mut k: usize = 0;
            while k < n
                invariant
                    n == list@.len(),
                    k <= n,
                    forall|i: int| 0 <= i < k ==> spec_declares_attribute(p, #[trigger] list@[i]@),
                decreases n - k,
            {
                let declared = match &p.additional_info {
                    Some(attrs) => contains_ci(attrs, list[k].as_str()),
                    None => false,
                };
                if !declared {
                    proof {
                        assert(!spec_declares_attribute(p, list@[k as int]@));
                    }
                    return false;
                }
                k = k + 1;
            }
        },
        None => {},
    }
    true
}

} // verus!
