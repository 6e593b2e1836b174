//! Checking RFC3339 timestamps, through the `time` crate.

use vstd::prelude::*;

verus! {

/// What checking `text` as an RFC3339 timestamp gives: `None` when it parses,
/// else the parser's error message.
pub uninterp spec fn rfc3339_problem(text: Seq<char>) -> Option<Seq<char>>;

/// Calls `time::OffsetDateTime::parse(text, &Rfc3339)` and keeps only whether
/// it succeeded (and the error's message when it did not). Claimed: the
/// outcome is a function of `text` alone, named [`rfc3339_problem`]; nothing
/// is claimed about which texts parse.
#[verifier::external_body]
pub(crate) fn check_rfc3339(text: &str) -> (r: Result<(), String>)
    ensures
        match (r, rfc3339_problem(text@)) {
            (Ok(_), None) => true,
            (Err(a), Some(b)) => a@ == b,
            _ => false,
        },
{
    match time::OffsetDateTime::parse(text, &time::format_description::well_known::Rfc3339) {
        Ok(_) => Ok(()),
        Err(e) => Err(e.to_string()),
    }
}

} // verus!
