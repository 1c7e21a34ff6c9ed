//! Case-insensitive text comparison for eligibility matching.
//!
//! Criteria strings are compared to participant attributes by lowercasing
//! both sides. The lowercase form of a string is named by the uninterpreted
//! [`lower_of`]: it depends on the characters alone, so equality of two
//! folded strings is a deterministic relation the contracts can speak of.

use vstd::prelude::*;

verus! {

/// The lowercase form of a string, as Unicode lowercasing produces it.
pub uninterp spec fn lower_of(s: Seq<char>) -> Seq<char>;

/// Two strings are equal up to case when their lowercase forms coincide.
pub open spec fn ci_eq(a: Seq<char>, b: Seq<char>) -> bool {
    lower_of(a) == lower_of(b)
}

/// Relies on `str::to_lowercase`: the result is a pure function of the
/// characters of its argument.
#[verifier::external_body]
fn to_lower(s: &str) -> (r: String)
    ensures
        r@ == lower_of(s@),
{
    s.to_lowercase()
}

/// Whether `a` and `b` are equal ignoring case.
pub fn eq_ignore_case(a: &str, b: &str) -> (r: bool)
    ensures
        r == ci_eq(a@, b@),
{
    let la = to_lower(a);
    let lb = to_lower(b);
    la == lb
}

} // verus!
