//! The time of a registration.

use vstd::prelude::*;

verus! {

/// The offset with which every timestamp of this library ends: UTC, written
/// out with its sign and a colon.
pub open spec fn utc_offset() -> Seq<char> {
    seq!['+', '0', '0', ':', '0', '0']
}

/// Whether `stamp` ends with the UTC offset.
pub open spec fn ends_in_utc_offset(stamp: Seq<char>) -> bool {
    &&& stamp.len() >= utc_offset().len()
    &&& stamp.subrange(stamp.len() - utc_offset().len(), stamp.len() as int) == utc_offset()
}

/// The current time in UTC as an RFC 3339 string, from `chrono::Utc::now()` and
/// `DateTime::to_rfc3339()`.
///
/// The result depends on the clock, so two calls differ. Trusted, not proved:
/// whatever the clock says, the string ends with the offset `+00:00`, which is
/// how chrono writes the offset of `Utc`. chrono reads the system clock and
/// panics if that clock stands before 1970 or beyond the years it can hold.
#[verifier::external_body]
pub(crate) fn utc_now_rfc3339() -> (stamp: String)
    ensures
        ends_in_utc_offset(stamp@),
{
    chrono::Utc::now().to_rfc3339()
}

} // verus!
