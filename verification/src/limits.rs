//! Platform-wide bounds and defaults consulted by the engine's validations.

use vstd::prelude::*;

verus! {

/// Longest accepted study title, in characters.
pub const MAX_TITLE_LEN: usize = 100;

/// Longest accepted study description, in characters.
pub const MAX_DESCRIPTION_LEN: usize = 500;

/// Platform cap on the participant capacity of a single study.
pub const MAX_PARTICIPANTS_PER_STUDY: u32 = 10000;

/// Shortest accepted enrollment window, in seconds (one hour).
pub const MIN_ENROLLMENT_WINDOW: i64 = 3600;

/// Default lower bound on total study duration, in seconds (one day).
pub const DEFAULT_MIN_STUDY_DURATION: u64 = 86400;

/// Default upper bound on total study duration, in seconds (one year).
pub const DEFAULT_MAX_STUDY_DURATION: u64 = 31536000;

/// Default protocol fee, in basis points (2.5%).
pub const DEFAULT_PROTOCOL_FEE_BPS: u16 = 250;

/// Cap on the protocol fee, in basis points (10%).
pub const MAX_PROTOCOL_FEE_BPS: u16 = 1000;

/// Lowest minimum age an eligibility rule may demand.
pub const MIN_CRITERIA_AGE: u8 = 18;

/// Highest maximum age an eligibility rule may demand.
pub const MAX_CRITERIA_AGE: u8 = 100;

/// Shortest accepted off-chain content identifier, in characters.
pub const MIN_CONTENT_ID_LEN: usize = 10;

/// Longest accepted off-chain content identifier, in characters.
pub const MAX_CONTENT_ID_LEN: usize = 100;

/// Mandatory delay between a data submission and its reward settlement,
/// in seconds (24 hours).
pub const SETTLEMENT_COOLDOWN: i64 = 86400;

} // verus!
