//! The library's trusted view of the wall clock.

use vstd::prelude::*;

verus! {

/// Whether chrono's RFC 3339 parser accepts this text
/// (chrono::DateTime::parse_from_rfc3339 returns Ok): a function of the text
/// alone.
pub uninterp spec fn rfc3339_parseable(s: Seq<char>) -> bool;

/// A rendered timestamp whose year field is four digits, as RFC 3339
/// requires: it does not start with the explicit sign used for years
/// outside 0 through 9999.
pub open spec fn four_digit_year(s: Seq<char>) -> bool {
    s.len() > 0 && s[0] != '+' && s[0] != '-'
}

/// Relies on chrono::Utc::now and chrono::DateTime::to_rfc3339: the current
/// UTC time rendered as date, 'T', time, an optional fraction and a UTC
/// offset, never fewer than twenty characters. For years 0 through 9999 the
/// rendering keeps to RFC 3339's four-digit year and parses back with
/// chrono::DateTime::parse_from_rfc3339; a year beyond that range is
/// rendered with an explicit sign, which that parser rejects. The value
/// depends on the clock, so nothing more is promised of it.
#[verifier::external_body]
pub(crate) fn now_rfc3339() -> (r: String)
    ensures
        r@.len() >= 20,
        four_digit_year(r@) ==> rfc3339_parseable(r@),
{
    chrono::Utc::now().to_rfc3339()
}

} // verus!
