//! The client's decision: from the command line's values to a plan, or to
//! the error shown to the user.

use vstd::prelude::*;

use crate::clock::{
    local_timestamp, local_utc_minus_local, naive_datetime_seconds, now_timestamp,
    parse_naive_seconds, TIME_FORMAT,
};
use crate::error::{client_error_of, time_parse_message, ClientError, ClientResult};
use crate::job::{refusal, regular_ids, str_texts, texts, ExecutionPlan};

verus! {

/// The start second that a plan keeps for a universal time.
pub open spec fn start_second(t: i64) -> u64 {
    t as u64
}

/// Whether a parsed local time lies far enough inside `i64` that adding any
/// zone offset (less than a day) stays inside it.
pub open spec fn offset_safe(n: i64) -> bool {
    i64::MIN + 86_400 <= n <= i64::MAX - 86_400
}

/// The plan, or the error, for a command, its arguments, the outcome of
/// reading the start time as a local time (`parsed`), the zone's offset,
/// the ids and the clock: a time that does not parse (or whose universal
/// time leaves `i64`) is refused first; then the request is decided as
/// `ExecutionPlan::new_at` decides it at the universal time, its error
/// turned into the client error of the same name.
pub fn parse_at(
    command: &str,
    args: Vec<&str>,
    parsed: Result<i64, chrono::ParseError>,
    utc_minus_local: i32,
    uid: u32,
    gid: u32,
    now: i64,
) -> (r: ClientResult<ExecutionPlan>)
    ensures
        match parsed {
            Err(_) => r matches Err(ClientError::InvalidTimeParse(m)) && m@ == time_parse_message(),
            Ok(n) => if !(i64::MIN <= n + utc_minus_local <= i64::MAX) {
                r matches Err(ClientError::InvalidTimeParse(m)) && m@ == time_parse_message()
            } else {
                let t = (n + utc_minus_local) as i64;
                match refusal(uid, gid, t, now) {
                    Some(e) => r == Err::<ExecutionPlan, ClientError>(client_error_of(e)),
                    None => r matches Ok(plan) && plan.uid == uid && plan.gid == gid
                        && plan.command@ == command@ && texts(plan.args@) == str_texts(args@)
                        && plan.time == start_second(t),
                }
            },
        },
        (parsed matches Ok(n) && i64::MIN <= n + utc_minus_local <= i64::MAX && (uid < 1000 || gid
            < 1000)) ==> r == Err::<ExecutionPlan, ClientError>(
            ClientError::AccessDenied((uid, gid)),
        ),
        parsed matches Ok(n) ==> ((i64::MIN <= n + utc_minus_local <= i64::MAX && uid >= 1000
            && gid >= 1000 && n + utc_minus_local - now >= 1) ==> (r matches Ok(plan) && plan.time
            == start_second((n + utc_minus_local) as i64))),
        parsed matches Ok(n) ==> ((i64::MIN <= n + utc_minus_local <= i64::MAX && uid >= 1000
            && gid >= 1000 && n + utc_minus_local - now < 1) ==> r == Err::<
            ExecutionPlan,
            ClientError,
        >(ClientError::TimePassed((n + utc_minus_local) as i64))),
{
    let timestamp = match local_timestamp(parsed, utc_minus_local) {
        Ok(t) => t,
        Err(e) => return Err(e),
    };
    match ExecutionPlan::new_at(command, args, timestamp, uid, gid, now) {
        Ok(plan) => Ok(plan),
        Err(e) => Err(ClientError::from(e)),
    }
}

/// Builds the plan for a command, its arguments and a start time written
/// in `TIME_FORMAT` as a local time, run as `uid`/`gid`, against the zone
/// and the clock of this machine. A time that does not parse is refused
/// first; then system ids; then a time that is not ahead of the clock.
pub fn parse(command: &str, args: Vec<&str>, time: &str, uid: u32, gid: u32) -> (r: ClientResult<
    ExecutionPlan,
>)
    ensures
        naive_datetime_seconds(time@, TIME_FORMAT@) is None ==> (r matches Err(
            ClientError::InvalidTimeParse(m),
        ) && m@ == time_parse_message()),
        r matches Err(ClientError::InvalidTimeParse(m)) ==> (m@ == time_parse_message() && (
        naive_datetime_seconds(time@, TIME_FORMAT@) is None || (naive_datetime_seconds(
            time@,
            TIME_FORMAT@,
        ) matches Some(n) && !offset_safe(n)))),
        (naive_datetime_seconds(time@, TIME_FORMAT@) matches Some(n) && offset_safe(n)
            && !regular_ids(uid, gid)) ==> r == Err::<ExecutionPlan, ClientError>(
            ClientError::AccessDenied((uid, gid)),
        ),
        r matches Err(ClientError::AccessDenied(c)) ==> (c == (uid, gid) && !regular_ids(uid, gid)
            && naive_datetime_seconds(time@, TIME_FORMAT@) is Some),
        r matches Err(ClientError::AccessDenied(c)) ==> (uid < 1000 || gid < 1000),
        (naive_datetime_seconds(time@, TIME_FORMAT@) matches Some(n) && offset_safe(n) && (uid
            < 1000 || gid < 1000)) ==> r == Err::<ExecutionPlan, ClientError>(
            ClientError::AccessDenied((uid, gid)),
        ),
        (naive_datetime_seconds(time@, TIME_FORMAT@) matches Some(n) && offset_safe(n) && uid
            >= 1000 && gid >= 1000) ==> (r is Ok || r matches Err(ClientError::TimePassed(_))),
        (naive_datetime_seconds(time@, TIME_FORMAT@) matches Some(n) && offset_safe(n)
            && regular_ids(uid, gid)) ==> (r is Ok || r matches Err(ClientError::TimePassed(_))),
        r matches Ok(plan) ==> (naive_datetime_seconds(time@, TIME_FORMAT@) matches Some(n) && (
        exists|t: i64|
            n - 86_400 < t < n + 86_400 && plan.time == #[trigger] start_second(t)) && plan.uid
            == uid && plan.gid == gid && plan.command@ == command@ && texts(plan.args@)
            == str_texts(args@) && regular_ids(uid, gid)),
        r matches Err(ClientError::TimePassed(t)) ==> (naive_datetime_seconds(
            time@,
            TIME_FORMAT@,
        ) matches Some(n) && n - 86_400 < t < n + 86_400 && regular_ids(uid, gid)),
        !(r matches Err(ClientError::TransferAborted(_))),
{
    let parsed = parse_naive_seconds(time, TIME_FORMAT);
    let offset = local_utc_minus_local();
    let now = now_timestamp();
    parse_at(command, args, parsed, offset, uid, gid, now)
}

} // verus!
