//! Participant-recruitment and reward-settlement ledger for decentralized
//! research studies.
//!
//! Researchers register a study with timing windows and a participant cap,
//! gate enrollment by eligibility criteria, collect consent and encrypted-data
//! submissions, and settle per-participant rewards from a pooled vault. Every
//! operation is a single atomic step of a deterministic state machine whose
//! invariants (capacity, vault solvency, double-claim prevention) are verified.
//!
//! Where reasonable designs diverge, this library fixes one policy: a
//! Published study turns Active when its enrollment window ends (never
//! automatically out of Active); publishing is possible only while the
//! enrollment start has not passed; revoking a consent does not give the
//! capacity slot back; and a custom eligibility requirement fails for a
//! participant who declares no attribute list.

pub mod admin;
pub mod casefold;
pub mod eligibility;
pub mod engine;
pub mod errors;
pub mod laws;
pub mod limits;
pub mod queries;
pub mod records;
pub mod study;
