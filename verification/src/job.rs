//! The job records: what a client asks for (`Job`, `ExecutionPlan`) and
//! what the daemon keeps (`JobWithCredentials`), with the rule that admits
//! a request.

use vstd::prelude::*;

use crate::clock::now_timestamp;
use crate::error::{JobError, JobResult};

verus! {

/// The lowest user or group id that may schedule commands; smaller ids
/// belong to the system.
pub const FIRST_REGULAR_ID: u32 = 1000;

/// A command, its arguments and its start time (seconds since the Unix
/// epoch), as a client sends it.
#[derive(Debug)]
pub struct Job {
    pub command: String,
    pub args: Vec<String>,
    pub time: u64,
}

/// A job together with the user and group it runs as, as the daemon keeps it.
#[derive(Debug)]
pub struct JobWithCredentials {
    pub uid: u32,
    pub gid: u32,
    pub command: String,
    pub args: Vec<String>,
    pub time: u64,
}

/// A job together with the user and group that asked for it.
#[derive(Debug)]
pub struct ExecutionPlan {
    pub uid: u32,
    pub gid: u32,
    pub command: String,
    pub args: Vec<String>,
    pub time: u64,
}

/// The texts of a list of owned strings.
pub open spec fn texts(v: Seq<String>) -> Seq<Seq<char>> {
    v.map_values(|s: String| s@)
}

/// The texts of a list of borrowed strings.
pub open spec fn str_texts(v: Seq<&str>) -> Seq<Seq<char>> {
    v.map_values(|s: &str| s@)
}

/// Whether both ids belong to a regular user.
pub open spec fn regular_ids(uid: u32, gid: u32) -> bool {
    uid >= FIRST_REGULAR_ID && gid >= FIRST_REGULAR_ID
}

/// The refusal, if any, of a request to start at `time` by `uid`/`gid` when
/// the clock reads `now`: system ids first, then a time that is not at
/// least one second ahead.
pub open spec fn refusal(uid: u32, gid: u32, time: i64, now: i64) -> Option<JobError> {
    if !regular_ids(uid, gid) {
        Some(JobError::AccessDenied((uid, gid)))
    } else if time - now < 1 {
        Some(JobError::TimePassed(time))
    } else {
        None
    }
}

/// The admission rule: a request is refused for its ids exactly when the
/// user or the group id lies below 1000 (a system id), and otherwise it is
/// admitted exactly when its time lies at least one second after the clock.
pub proof fn law_admission(uid: u32, gid: u32, time: i64, now: i64)
    ensures
        (refusal(uid, gid, time, now) == Some(JobError::AccessDenied((uid, gid)))) <==> (uid < 1000
            || gid < 1000),
        (refusal(uid, gid, time, now) == Some(JobError::TimePassed(time))) <==> (uid >= 1000 && gid
            >= 1000 && time <= now),
        (refusal(uid, gid, time, now) is None) <==> (uid >= 1000 && gid >= 1000 && time > now),
{
}

/// Copies each argument into an owned string, keeping the order.
pub fn own_all(args: Vec<&str>) -> (r: Vec<String>)
    ensures
        texts(r@) == str_texts(args@),
{
    let mut r: Vec<String> = Vec::new();
    let n = args.len();
    for i in 0..n
        invariant
            n == args.len(),
            r.len() == i,
            forall|j: int| 0 <= j < i ==> #[trigger] r@[j]@ == args@[j]@,
    {
        r.push(String::from_str(args[i]));
    }
    assert(texts(r@) =~= str_texts(args@));
    r
}

/// The refusal of a request, as an executable check.
fn check_request(uid: u32, gid: u32, time: i64, now: i64) -> (r: Option<JobError>)
    ensures
        r == refusal(uid, gid, time, now),
{
    if uid < FIRST_REGULAR_ID || gid < FIRST_REGULAR_ID {
        Some(JobError::AccessDenied((uid, gid)))
    } else if time <= now {
        Some(JobError::TimePassed(time))
    } else {
        None
    }
}

impl Job {
    /// Builds a job for `uid`/`gid` to start at `time` when the clock reads
    /// `now`: refused for a system user or group, then for a time that is
    /// not at least one second after `now`.
    pub fn new_at(command: &str, args: Vec<&str>, time: i64, uid: u32, gid: u32, now: i64) -> (r:
        JobResult<Self>)
        ensures
            match refusal(uid, gid, time, now) {
                Some(e) => r == Err::<Job, JobError>(e),
                None => r matches Ok(job) && job.command@ == command@ && texts(job.args@)
                    == str_texts(args@) && job.time == time as u64,
            },
            (uid < 1000 || gid < 1000) ==> r == Err::<Job, JobError>(
                JobError::AccessDenied((uid, gid)),
            ),
            (uid >= 1000 && gid >= 1000 && time - now < 1) ==> r == Err::<Job, JobError>(
                JobError::TimePassed(time),
            ),
            (uid >= 1000 && gid >= 1000 && time - now >= 1) ==> (r matches Ok(job)
                && job.command@ == command@ && texts(job.args@) == str_texts(args@) && job.time
                == time as u64),
    {
        match check_request(uid, gid, time, now) {
            Some(e) => Err(e),
            None => Ok(Job { command: String::from_str(command), args: own_all(args), time: time as u64 }),
        }
    }

    /// Builds a job for `uid`/`gid` to start at `time`, against the current
    /// clock. The ids are checked whatever the clock reads; whether the time
    /// is still ahead depends on the clock.
    pub fn new(command: &str, args: Vec<&str>, time: i64, uid: u32, gid: u32) -> (r: JobResult<
        Self,
    >)
        ensures
            !regular_ids(uid, gid) ==> r == Err::<Job, JobError>(
                JobError::AccessDenied((uid, gid)),
            ),
            regular_ids(uid, gid) ==> match r {
                Ok(job) => job.command@ == command@ && texts(job.args@) == str_texts(args@)
                    && job.time == time as u64,
                Err(e) => e == JobError::TimePassed(time),
            },
            (uid < 1000 || gid < 1000) ==> r == Err::<Job, JobError>(
                JobError::AccessDenied((uid, gid)),
            ),
            (uid >= 1000 && gid >= 1000) ==> (r is Ok || r == Err::<Job, JobError>(
                JobError::TimePassed(time),
            )),
    {
        let now = now_timestamp();
        Job::new_at(command, args, time, uid, gid, now)
    }
}

impl ExecutionPlan {
    /// Builds a plan for `uid`/`gid` to start at `time` when the clock reads
    /// `now`, refused as `Job::new_at` refuses; the plan keeps the ids.
    pub fn new_at(command: &str, args: Vec<&str>, time: i64, uid: u32, gid: u32, now: i64) -> (r:
        JobResult<Self>)
        ensures
            match refusal(uid, gid, time, now) {
                Some(e) => r == Err::<ExecutionPlan, JobError>(e),
                None => r matches Ok(plan) && plan.uid == uid && plan.gid == gid && plan.command@
                    == command@ && texts(plan.args@) == str_texts(args@) && plan.time == time as u64,
            },
            (uid < 1000 || gid < 1000) ==> r == Err::<ExecutionPlan, JobError>(
                JobError::AccessDenied((uid, gid)),
            ),
            (uid >= 1000 && gid >= 1000 && time - now < 1) ==> r == Err::<ExecutionPlan, JobError>(
                JobError::TimePassed(time),
            ),
            (uid >= 1000 && gid >= 1000 && time - now >= 1) ==> (r matches Ok(plan) && plan.uid
                == uid && plan.gid == gid && plan.command@ == command@ && texts(plan.args@)
                == str_texts(args@) && plan.time == time as u64),
    {
        match check_request(uid, gid, time, now) {
            Some(e) => Err(e),
            None => Ok(
                ExecutionPlan {
                    uid,
                    gid,
                    command: String::from_str(command),
                    args: own_all(args),
                    time: time as u64,
                },
            ),
        }
    }

    /// The job that the plan asks the daemon for: its command, arguments and
    /// time; the daemon takes the ids from the socket's peer.
    pub fn into_job(self) -> (job: Job)
        ensures
            job.command == self.command,
            job.args == self.args,
            job.time == self.time,
    {
        Job { command: self.command, args: self.args, time: self.time }
    }

    /// Builds a plan for `uid`/`gid` to start at `time`, against the current clock.
    pub fn new(command: &str, args: Vec<&str>, time: i64, uid: u32, gid: u32) -> (r: JobResult<
        Self,
    >)
        ensures
            !regular_ids(uid, gid) ==> r == Err::<ExecutionPlan, JobError>(
                JobError::AccessDenied((uid, gid)),
            ),
            regular_ids(uid, gid) ==> match r {
                Ok(plan) => plan.uid == uid && plan.gid == gid && plan.command@ == command@
                    && texts(plan.args@) == str_texts(args@) && plan.time == time as u64,
                Err(e) => e == JobError::TimePassed(time),
            },
            (uid < 1000 || gid < 1000) ==> r == Err::<ExecutionPlan, JobError>(
                JobError::AccessDenied((uid, gid)),
            ),
            (uid >= 1000 && gid >= 1000) ==> (r is Ok || r == Err::<ExecutionPlan, JobError>(
                JobError::TimePassed(time),
            )),
    {
        let now = now_timestamp();
        ExecutionPlan::new_at(command, args, time, uid, gid, now)
    }
}

impl JobWithCredentials {
    /// The job as the daemon keeps it: the same command, arguments and time,
    /// run as the user and group that sent it.
    pub fn from_job(job: Job, uid: u32, gid: u32) -> (r: JobWithCredentials)
        ensures
            r.uid == uid,
            r.gid == gid,
            r.command == job.command,
            r.args == job.args,
            r.time == job.time,
    {
        JobWithCredentials { uid, gid, command: job.command, args: job.args, time: job.time }
    }
}

} // verus!
