//! Length checks on the fields of request bodies.

use vstd::prelude::*;

verus! {

/// What a length check asks of a text: at least `min` characters where a
/// lower bound is given, at most `max` where an upper bound is given.
pub open spec fn within(text: Seq<char>, min: Option<u64>, max: Option<u64>) -> bool {
    &&& min matches Some(least) ==> text.len() >= least
    &&& max matches Some(most) ==> text.len() <= most
}

/// Checks the length of a text with
/// `validator::ValidateLength::validate_length`, which counts the
/// characters of a string and compares the count with the bounds that are
/// given; no exact length is asked for.
#[verifier::external_body]
pub(crate) fn length_within(text: &str, min: Option<u64>, max: Option<u64>) -> (ok: bool)
    ensures
        ok == within(text@, min, max),
{
    validator::ValidateLength::validate_length(text, min, max, None)
}

} // verus!
