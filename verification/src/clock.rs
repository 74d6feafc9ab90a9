//! Wall-clock access and date rendering.
//!
//! The reducer itself never reads the clock; these calls serve the two
//! places the design names: stamping a workout when it is created or
//! finished, and rendering a history item's start date.

use vstd::prelude::*;

verus! {

/// Relies on chrono's `Utc::now` and `DateTime::timestamp`: seconds since
/// the Unix epoch at the moment of the call. Nothing is promised of the
/// value; callers must hold for every outcome.
#[verifier::external_body]
pub fn now_unix_timestamp() -> i64 {
    chrono::Utc::now().timestamp()
}

/// The date label chrono renders for a Unix timestamp with the pattern
/// `%b %d, %Y` (for example `Nov 26, 2025`).
pub uninterp spec fn date_label(ts: int) -> Seq<char>;

/// Relies on chrono's `DateTime::from_timestamp` and `format`: the
/// rendering is a function of the timestamp alone, in UTC, with English
/// month abbreviations. A timestamp outside chrono's range renders as the
/// epoch.
#[verifier::external_body]
pub fn format_date_label(ts: i64) -> (r: String)
    ensures
        r@ == date_label(ts as int),
{
    let dt = chrono::DateTime::<chrono::Utc>::from_timestamp(ts, 0).unwrap_or_default();
    dt.format("%b %d, %Y").to_string()
}

} // verus!
