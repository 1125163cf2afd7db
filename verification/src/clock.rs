//! The calendar and the clock: the current time and the reading of a time
//! that a user writes, both through `chrono`.

use chrono::{Offset, TimeZone};
use vstd::prelude::*;

use crate::error::{time_parse_message, ClientError, ClientResult};

verus! {

/// The layout in which users write the start time of a command.
pub const TIME_FORMAT: &'static str = "%Y.%m.%d %H:%M:%S";

/// What `chrono::NaiveDateTime::parse_from_str` gives for a text and a
/// format, taken as the count of seconds since 1970-01-01 00:00:00 of the
/// same (zone-less) calendar; `None` where `chrono` refuses the text.
pub uninterp spec fn naive_datetime_seconds(text: Seq<char>, format: Seq<char>) -> Option<i64>;

/// Calls `chrono::NaiveDateTime::parse_from_str` and, on success, its
/// `timestamp`. Claimed: the outcome is a function of the text and the
/// format alone, named `naive_datetime_seconds`; an error is `chrono`'s
/// own `ParseError`.
#[verifier::external_body]
#[allow(deprecated)]
pub(crate) fn parse_naive_seconds(text: &str, format: &str) -> (r: Result<i64, chrono::ParseError>)
    ensures
        r is Ok <==> naive_datetime_seconds(text@, format@) is Some,
        r matches Ok(t) ==> naive_datetime_seconds(text@, format@) == Some(t),
{
    match chrono::NaiveDateTime::parse_from_str(text, format) {
        Ok(t) => Ok(t.timestamp()),
        Err(e) => Err(e),
    }
}

/// Calls `chrono::Local.timestamp(0, 0).offset().fix().utc_minus_local()`:
/// the seconds to add to a local time of this machine's time zone to get
/// the universal time. Claimed: only the bound that `chrono::FixedOffset`
/// keeps on every offset it holds (strictly less than a day either way);
/// the value depends on the machine's time zone and is left unsaid.
#[verifier::external_body]
#[allow(deprecated)]
pub(crate) fn local_utc_minus_local() -> (r: i32)
    ensures
        -86_400 < r < 86_400,
{
    chrono::Local.timestamp(0, 0).offset().fix().utc_minus_local()
}

/// Calls `chrono::Local::now().timestamp()`: the current time in seconds
/// since the Unix epoch. Nothing is claimed of the value: it is the clock's.
#[verifier::external_body]
pub fn now_timestamp() -> (r: i64) {
    chrono::Local::now().timestamp()
}

/// Turns the outcome of a parse of a local time into a universal time,
/// adding the zone's offset. A sum beyond `i64` counts as a text that
/// does not parse.
pub fn local_timestamp(parsed: Result<i64, chrono::ParseError>, utc_minus_local: i32) -> (r:
    ClientResult<i64>)
    ensures
        match r {
            Ok(t) => parsed matches Ok(n) && t == n + utc_minus_local,
            Err(e) => e matches ClientError::InvalidTimeParse(m) && m@ == time_parse_message() && (
            parsed is Err || (parsed matches Ok(n) && !(i64::MIN <= n + utc_minus_local
                <= i64::MAX))),
        },
{
    match parsed {
        Ok(n) => match n.checked_add(utc_minus_local as i64) {
            Some(t) => Ok(t),
            None => Err(
                ClientError::InvalidTimeParse(String::from_str("cannot parse the provided datetime")),
            ),
        },
        Err(e) => Err(ClientError::from(e)),
    }
}

/// Reads a start time written by the user in `TIME_FORMAT`, in the local
/// time zone, as seconds since the Unix epoch.
pub fn parse_time(text: &str) -> (r: ClientResult<i64>)
    ensures
        r is Ok ==> naive_datetime_seconds(text@, TIME_FORMAT@) is Some,
        (naive_datetime_seconds(text@, TIME_FORMAT@) matches Some(n) && i64::MIN + 86_400 <= n
            <= i64::MAX - 86_400) ==> r is Ok,
        naive_datetime_seconds(text@, TIME_FORMAT@) is None ==> (r matches Err(
            ClientError::InvalidTimeParse(m)) && m@ == time_parse_message()),
        r matches Ok(t) ==> (naive_datetime_seconds(text@, TIME_FORMAT@) matches Some(n) && n
            - 86_400 < t < n + 86_400),
        r matches Err(e) ==> (e matches ClientError::InvalidTimeParse(m) && m@
            == time_parse_message()),
{
    let parsed = parse_naive_seconds(text, TIME_FORMAT);
    let offset = local_utc_minus_local();
    local_timestamp(parsed, offset)
}

} // verus!
