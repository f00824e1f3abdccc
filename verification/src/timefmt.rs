//! Timestamps in the format the API uses: `YYYY-MM-DDTHH:MM:SS.mmmZ`, in UTC.
use vstd::prelude::*;

verus! {

/// The text that `chrono` gives for a time (milliseconds since the epoch) formatted with
/// `%Y-%m-%dT%H:%M:%S%.3fZ`; `None` where `DateTime::from_timestamp_millis` has no such time.
pub uninterp spec fn spec_format_timestamp_millis(millis: i64) -> Option<Seq<char>>;

/// Calls `chrono::DateTime::from_timestamp_millis` and formats the time with
/// `%Y-%m-%dT%H:%M:%S%.3fZ`. Claimed: the result is the named text of the time.
#[verifier::external_body]
fn chrono_format_millis(millis: i64) -> (r: Option<String>)
    ensures
        match r {
            Some(t) => spec_format_timestamp_millis(millis) == Some(t@),
            None => spec_format_timestamp_millis(millis) is None,
        },
{
    chrono::DateTime::from_timestamp_millis(millis).map(
        |dt| dt.format("%Y-%m-%dT%H:%M:%S%.3fZ").to_string(),
    )
}

/// Formats a time, given in milliseconds since the epoch, as an API timestamp; `None` for a
/// time outside the representable range.
pub fn format_timestamp(millis: i64) -> (r: Option<String>)
    ensures
        match r {
            Some(t) => spec_format_timestamp_millis(millis) == Some(t@),
            None => spec_format_timestamp_millis(millis) is None,
        },
{
    chrono_format_millis(millis)
}

} // verus!
