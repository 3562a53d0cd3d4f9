use vstd::prelude::*;

use crate::text::{decimal, decimal_string};

verus! {

/// The last second (9999-12-31 23:59:59 UTC) of the four-digit years.
pub const LAST_FOUR_DIGIT_YEAR_SECOND: u64 = 253402300799;

/// The text shown for a timestamp that has no calendar date.
pub open spec fn invalid_timestamp_text(timestamp: u64) -> Seq<char> {
    "Invalid timestamp: "@ + decimal(timestamp as nat)
}

/// What is shown for `timestamp` when the local calendar rendering is `local`.
pub open spec fn timestamp_display(timestamp: u64, local: Option<String>) -> Seq<char> {
    match local {
        Some(s) => s@,
        None => invalid_timestamp_text(timestamp),
    }
}

/// Relies on chrono's `DateTime::from_timestamp`, which gives `None` only for
/// seconds outside its calendar (years -262143 to 262142), and on
/// `DateTime::with_timezone` into `Local` and `DateTime::format`, which render
/// the date. The text depends on the machine's time zone, so nothing is said of it.
#[verifier::external_body]
fn local_date_time(secs: i64) -> (r: Option<String>)
    ensures
        0 <= secs <= LAST_FOUR_DIGIT_YEAR_SECOND ==> r is Some,
{
    match chrono::DateTime::from_timestamp(secs, 0) {
        Some(utc) => Some(
            utc.with_timezone(&chrono::Local).format("%Y-%m-%d %H:%M:%S").to_string(),
        ),
        None => None,
    }
}

/// The text shown for `timestamp` given its local calendar rendering, if any.
pub fn timestamp_text(timestamp: u64, local: Option<String>) -> (r: String)
    ensures
        r@ == timestamp_display(timestamp, local),
{
    match local {
        Some(s) => s,
        None => {
            let mut r = "Invalid timestamp: ".to_owned();
            let digits = decimal_string(timestamp);
            r.push_str(digits.as_str());
            r
        },
    }
}

/// Renders seconds since the epoch as local `YYYY-MM-DD HH:MM:SS`. A
/// timestamp beyond `i64::MAX` seconds has no date and is reported as invalid.
pub fn format_timestamp_local(timestamp: u64) -> (r: String)
    ensures
        exists|local: Option<String>|
            r@ == #[trigger] timestamp_display(timestamp, local)
            && (timestamp <= LAST_FOUR_DIGIT_YEAR_SECOND ==> local is Some)
            && (timestamp > i64::MAX ==> local is None),
{
    let local = if timestamp <= i64::MAX as u64 {
        local_date_time(timestamp as i64)
    } else {
        None
    };
    timestamp_text(timestamp, local)
}

} // verus!
