//! Reading the timestamps that the tracking service sends.

use vstd::prelude::*;

verus! {

/// The instant that `text` denotes when read as an RFC 3339 date and time, in
/// seconds since the Unix epoch, or `None` when `text` is no such date and
/// time.  The reading is chrono's.
pub uninterp spec fn rfc3339_epoch_seconds(text: Seq<char>) -> Option<i64>;

/// Reads an RFC 3339 date and time and gives its Unix timestamp.
///
/// Trusted: the body calls `chrono::DateTime::parse_from_rfc3339` and, on
/// what it parsed, `chrono::DateTime::timestamp`.  Both depend on their
/// argument alone, and the parser reports text that it cannot read as an
/// error, which becomes `None` here.  The contract only gives the outcome its
/// name.
#[verifier::external_body]
pub(crate) fn parse_rfc3339(text: &str) -> (seconds: Option<i64>)
    ensures
        seconds == rfc3339_epoch_seconds(text@),
{
    match chrono::DateTime::parse_from_rfc3339(text) {
        Ok(instant) => Some(instant.timestamp()),
        Err(_) => None,
    }
}

} // verus!
