//! Global protocol configuration and aggregate counters.
//!
//! Created once by the protocol administrator; consulted at study creation
//! for the duration bounds; its running totals are advanced by the
//! operations as part of their atomic unit.

use vstd::prelude::*;

use crate::limits::MAX_PROTOCOL_FEE_BPS;

verus! {

/// The singleton protocol configuration with its aggregate counters.
#[derive(Clone, Copy, Debug, PartialEq, Eq, Structural)]
pub struct AdminConfig {
    /// Identity of the protocol administrator.
    pub admin: u64,
    /// Protocol fee in basis points; never above the cap.
    pub protocol_fee_bps: u16,
    /// Lower bound on total study duration, in seconds.
    pub min_study_duration: u64,
    /// Upper bound on total study duration, in seconds.
    pub max_study_duration: u64,
    /// How many studies have been created.
    pub total_studies: u64,
    /// How many enrollments have happened across all studies.
    pub total_participants: u64,
    /// Total rewards settled across all studies.
    pub total_rewards_distributed: u64,
}

impl AdminConfig {
    /// A sound configuration: fee within its cap and a non-empty duration
    /// range.
    pub open spec fn spec_ok(&self) -> bool {
        &&& self.protocol_fee_bps <= MAX_PROTOCOL_FEE_BPS
        &&& self.min_study_duration < self.max_study_duration
    }
}

} // verus!
