//! The daemon's queue of pending jobs, keyed by start time, and the
//! decisions of its scheduling loop: what to wait for, and what to do on
//! each event.

use std::collections::BTreeMap;

use vstd::prelude::*;

use vstd::std_specs::btree::spec_keys_iter;
use vstd::std_specs::iter::IteratorSpec;

use crate::clock::now_timestamp;
use crate::job::JobWithCredentials;
use crate::order::{lemma_first_key_least, lemma_keys_increasing, lemma_seconds_ordered};

verus! {

broadcast use vstd::std_specs::btree::group_btree_axioms;

/// Whether `t` is the earliest start time in `m`.
pub open spec fn is_earliest<J>(m: Map<u64, J>, t: u64) -> bool {
    &&& m.contains_key(t)
    &&& forall|k: u64| #[trigger] m.contains_key(k) ==> t <= k
}

/// The earliest start time in a non-empty queue.
pub open spec fn earliest_time<J>(m: Map<u64, J>) -> u64 {
    choose|t: u64| is_earliest(m, t)
}

/// The queue that a list of (time, job) entries gives when they are put in
/// one after the other; a later entry replaces an earlier one at the same time.
pub open spec fn map_of_entries<J>(s: Seq<(u64, J)>) -> Map<u64, J>
    decreases s.len(),
{
    if s.len() == 0 {
        Map::empty()
    } else {
        map_of_entries(s.drop_last()).insert(s.last().0, s.last().1)
    }
}

/// The entries with their jobs taken by value.
pub open spec fn owned_entries(r: Seq<(u64, &JobWithCredentials)>) -> Seq<(u64, JobWithCredentials)> {
    r.map_values(|e: (u64, &JobWithCredentials)| (e.0, *e.1))
}

/// Whether the times of a list of entries strictly increase.
pub open spec fn strictly_increasing_times<J>(s: Seq<(u64, J)>) -> bool {
    forall|i: int, j: int| 0 <= i < j < s.len() ==> #[trigger] s[i].0 < #[trigger] s[j].0
}

/// The queue without the jobs whose time lies before `bound`.
pub open spec fn from_time<J>(m: Map<u64, J>, bound: u64) -> Map<u64, J> {
    m.restrict(m.dom().filter(|k: u64| k >= bound))
}

/// The queue as it is cleaned when the clock reads `now`: without the jobs
/// whose time lies before `now`, read as an unsigned number of seconds.
pub open spec fn cleaned_at<J>(m: Map<u64, J>, now: i64) -> Map<u64, J> {
    from_time(m, now as u64)
}

/// The pending jobs, each under the second at which it starts. At most one
/// job waits under each second.
pub struct Scheduler {
    jobs: BTreeMap<u64, JobWithCredentials>,
}

impl View for Scheduler {
    type V = Map<u64, JobWithCredentials>;

    closed spec fn view(&self) -> Map<u64, JobWithCredentials> {
        self.jobs@
    }
}

impl Scheduler {
    /// A queue holds finitely many jobs, so the laws on finite queues apply
    /// to it.
    pub proof fn lemma_finite(&self)
        ensures
            self@.dom().finite(),
    {
    }

    /// An empty queue.
    pub fn new() -> (s: Scheduler)
        ensures
            s@ == Map::<u64, JobWithCredentials>::empty(),
    {
        Scheduler { jobs: BTreeMap::new() }
    }

    /// The number of pending jobs.
    pub fn len(&self) -> (n: usize)
        ensures
            n == self@.len(),
    {
        self.jobs.len()
    }

    /// Puts `job` under `time`, giving back the job that waited there before.
    pub fn insert(&mut self, time: u64, job: JobWithCredentials) -> (prev: Option<
        JobWithCredentials,
    >)
        ensures
            final(self)@ == old(self)@.insert(time, job),
            match prev {
                Some(p) => old(self)@.contains_key(time) && p == old(self)@[time],
                None => !old(self)@.contains_key(time),
            },
    {
        self.jobs.insert(time, job)
    }

    /// The earliest start time, if any job is pending.
    pub fn first_time(&self) -> (r: Option<u64>)
        ensures
            r is None <==> self@.dom().is_empty(),
            r matches Some(t) ==> is_earliest(self@, t),
    {
        let mut first: Option<u64> = None;
        for k in it: self.jobs.keys()
            invariant_except_break
                first is None,
                it.index() == 0,
            ensures
                first is None ==> it.seq().len() == 0,
                first matches Some(t) ==> it.seq().len() > 0 && t == *it.seq()[0],
        {
            first = Some(*k);
            break;
        }
        proof {
            lemma_first_key_least(&self.jobs);
        }
        first
    }

    /// The times of the pending jobs, earliest first.
    pub fn times(&self) -> (r: Vec<u64>)
        ensures
            forall|i: int, j: int| 0 <= i < j < r.len() ==> #[trigger] r@[i] < #[trigger] r@[j],
            forall|i: int| 0 <= i < r.len() ==> #[trigger] self@.contains_key(r@[i]),
            forall|k: u64| #[trigger] self@.contains_key(k) ==> r@.contains(k),
    {
        let mut r: Vec<u64> = Vec::new();
        for k in it: self.jobs.keys()
            invariant
                r@ == it.seq().take(it.index() as int).unref(),
        {
            r.push(*k);
            assert(r@ =~= it.seq().take(it.index() + 1).unref());
        }
        proof {
            lemma_keys_increasing(&self.jobs);
            assert(r@ =~= spec_keys_iter(&self.jobs).remaining().unref());
            assert forall|k: u64| #[trigger] self@.contains_key(k) implies r@.contains(k) by {
                assert(spec_keys_iter(&self.jobs).remaining().unref().to_set().contains(k));
            }
        }
        r
    }

    /// The queue read back from its cache when the clock reads `now`: the
    /// entries put in one after the other, without the jobs whose time lies
    /// before `now`.
    pub fn restore_at(entries: Vec<(u64, JobWithCredentials)>, now: i64) -> (s: Scheduler)
        ensures
            s@ == from_time(map_of_entries(entries@), now as u64),
    {
        let mut s = Scheduler::from_entries(entries);
        s.remove_expired(now);
        s
    }

    /// The queue read back from its cache, against the current clock: the
    /// entries put in one after the other, without the jobs whose time lies
    /// before the second at which the clock was read.
    pub fn restore(entries: Vec<(u64, JobWithCredentials)>) -> (s: Scheduler)
        ensures
            exists|now: i64| s@ == #[trigger] cleaned_at(map_of_entries(entries@), now),
    {
        let ghost source = map_of_entries(entries@);
        let now = now_timestamp();
        let s = Scheduler::restore_at(entries, now);
        assert(s@ == cleaned_at(source, now));
        s
    }

    /// The pending jobs with their times, earliest first, borrowed from the
    /// queue: the form in which the queue is written to its cache.
    pub fn entries(&self) -> (r: Vec<(u64, &JobWithCredentials)>)
        ensures
            strictly_increasing_times(owned_entries(r@)),
            map_of_entries(owned_entries(r@)) == self@,
    {
        let times = self.times();
        let mut r: Vec<(u64, &JobWithCredentials)> = Vec::new();
        let n = times.len();
        for i in 0..n
            invariant
                n == times.len(),
                r.len() == i,
                forall|a: int, b: int|
                    0 <= a < b < times.len() ==> #[trigger] times@[a] < #[trigger] times@[b],
                forall|a: int| 0 <= a < times.len() ==> #[trigger] self@.contains_key(times@[a]),
                forall|a: int|
                    0 <= a < i ==> (#[trigger] r@[a]).0 == times@[a] && *r@[a].1 == self@[times@[a]],
        {
            let t = times[i];
            match self.get(t) {
                Some(job) => r.push((t, job)),
                None => {
                    assert(false);
                },
            }
        }
        proof {
            let o = owned_entries(r@);
            assert(strictly_increasing_times(o)) by {
                assert forall|a: int, b: int| 0 <= a < b < o.len() implies #[trigger] o[a].0
                    < #[trigger] o[b].0 by {
                    assert(r@[a].0 == times@[a]);
                    assert(r@[b].0 == times@[b]);
                }
            }
            law_entries_keep_every_job(o);
            assert forall|k: u64| #[trigger] self@.contains_key(k) implies map_of_entries(
                o,
            ).contains_key(k) by {
                assert(times@.contains(k));
                let a = choose|a: int| 0 <= a < times.len() && times@[a] == k;
                assert(r@[a].0 == k);
                assert(o[a].0 == k);
            }
            assert forall|k: u64| #[trigger] map_of_entries(o).contains_key(k) implies self@.contains_key(
                k,
            ) && map_of_entries(o)[k] == self@[k] by {
                let a = choose|a: int| 0 <= a < o.len() && o[a].0 == k;
                assert(r@[a].0 == times@[a]);
            }
            assert(map_of_entries(o) =~= self@);
        }
        r
    }

    /// The job that waits under `time`, if any.
    pub fn get(&self, time: u64) -> (r: Option<&JobWithCredentials>)
        ensures
            match r {
                Some(job) => self@.contains_key(time) && *job == self@[time],
                None => !self@.contains_key(time),
            },
    {
        proof {
            lemma_seconds_ordered();
        }
        self.jobs.get(&time)
    }

    /// Takes out the job with the earliest time, with that time.
    pub fn pop_first(&mut self) -> (r: Option<(u64, JobWithCredentials)>)
        ensures
            old(self)@.dom().is_empty() ==> r is None && final(self)@ == old(self)@,
            !old(self)@.dom().is_empty() ==> (r matches Some((t, job)) && is_earliest(old(self)@, t)
                && job == old(self)@[t] && final(self)@ == old(self)@.remove(t)),
    {
        proof {
            lemma_seconds_ordered();
        }
        match self.first_time() {
            None => None,
            Some(t) => match self.jobs.remove(&t) {
                Some(job) => Some((t, job)),
                None => None,
            },
        }
    }

    /// Drops every job whose time lies before `bound`, keeping the others.
    pub fn remove_before(&mut self, bound: u64)
        ensures
            final(self)@ == from_time(old(self)@, bound),
    {
        let ghost start = self@;
        loop
            invariant_except_break
                forall|k: u64| #[trigger] self@.contains_key(k) ==> start.contains_key(k) && self@[k]
                    == start[k],
                forall|k: u64| #[trigger] start.contains_key(k) && k >= bound ==> self@.contains_key(
                    k,
                ),
                forall|k: u64| #[trigger] start.contains_key(k) && !self@.contains_key(k) ==> k < bound,
            ensures
                self@ == from_time(start, bound),
            decreases self@.len(),
        {
            match self.first_time() {
                Some(t) => {
                    if t < bound {
                        let ghost before = self@;
                        let _ = self.pop_first();
                        assert(self@.len() < before.len());
                    } else {
                        assert(self@ =~= from_time(start, bound));
                        break;
                    }
                },
                None => {
                    assert(self@ =~= from_time(start, bound));
                    break;
                },
            }
        }
    }

    /// Drops every job whose time lies before `now` (seconds since the Unix
    /// epoch, read as an unsigned number of seconds), as a queue read back
    /// from its cache is cleaned.
    pub fn remove_expired(&mut self, now: i64)
        ensures
            final(self)@ == from_time(old(self)@, now as u64),
    {
        self.remove_before(now as u64);
    }

    /// What the scheduling loop waits for next: any job, while none is
    /// pending, else the earliest start time.
    pub fn next_wait(&self) -> (w: Wait)
        ensures
            w is ForJob <==> self@.dom().is_empty(),
            w matches Wait::Until(t) ==> is_earliest(self@, t),
    {
        match self.first_time() {
            None => Wait::ForJob,
            Some(t) => Wait::Until(t),
        }
    }

    /// The scheduling loop's step: a received job joins the queue under its
    /// time (replacing a job waiting there); when a wait runs out, the
    /// earliest job leaves the queue and is handed back to be run if its
    /// time has come by the clock's reading `now` (read as an unsigned number
    /// of seconds), else nothing changes; a lost connection changes nothing.
    pub fn handle(&mut self, event: Event) -> (due: Option<JobWithCredentials>)
        ensures
            match event {
                Event::Received(job) => due is None && final(self)@ == old(self)@.insert(job.time, job),
                Event::TimedOut(now) => if old(self)@.dom().is_empty() || (now as u64) < earliest_time(
                    old(self)@,
                ) {
                    due is None && final(self)@ == old(self)@
                } else {
                    is_earliest(old(self)@, earliest_time(old(self)@)) && due == Some(
                        old(self)@[earliest_time(old(self)@)],
                    ) && final(self)@ == old(self)@.remove(earliest_time(old(self)@))
                },
                Event::Disconnected => due is None && final(self)@ == old(self)@,
            },
            keys_are_times(old(self)@) ==> keys_are_times(final(self)@),
            keys_are_times(old(self)@) ==> (event matches Event::TimedOut(now) ==> (
            due matches Some(job) ==> job.time <= now as u64)),
    {
        proof {
            if !old(self)@.dom().is_empty() {
                lemma_earliest_exists(old(self)@);
            }
        }
        match event {
            Event::Received(job) => {
                let _ = self.insert(job.time, job);
                None
            },
            Event::TimedOut(now) => match self.first_time() {
                Some(t) => {
                    proof {
                        lemma_earliest_unique(old(self)@, t);
                    }
                    if t <= now as u64 {
                        match self.pop_first() {
                            Some((_, job)) => Some(job),
                            None => None,
                        }
                    } else {
                        None
                    }
                },
                None => None,
            },
            Event::Disconnected => None,
        }
    }

    /// The pending jobs with their times, earliest first.
    pub fn into_entries(self) -> (r: Vec<(u64, JobWithCredentials)>)
        ensures
            strictly_increasing_times(r@),
            map_of_entries(r@) == self@,
    {
        let ghost start = self@;
        let mut rest = self;
        let mut r: Vec<(u64, JobWithCredentials)> = Vec::new();
        loop
            invariant_except_break
                strictly_increasing_times(r@),
                forall|i: int, k: u64|
                    0 <= i < r.len() && #[trigger] rest@.contains_key(k) ==> #[trigger] r@[i].0 < k,
                map_of_entries(r@).union_prefer_right(rest@) == start,
            ensures
                strictly_increasing_times(r@),
                map_of_entries(r@) == start,
            decreases rest@.len(),
        {
            let ghost before = rest@;
            let ghost prefix = r@;
            match rest.pop_first() {
                Some((t, job)) => {
                    r.push((t, job));
                    assert(r@.drop_last() =~= prefix);
                    assert(map_of_entries(r@) == map_of_entries(prefix).insert(t, job));
                    assert(map_of_entries(r@).union_prefer_right(rest@) =~= start);
                    assert(rest@.len() < before.len());
                },
                None => {
                    assert(map_of_entries(r@).union_prefer_right(rest@) =~= map_of_entries(r@));
                    break;
                },
            }
        }
        r
    }

    /// The queue that results from putting in each entry in turn.
    pub fn from_entries(entries: Vec<(u64, JobWithCredentials)>) -> (s: Scheduler)
        ensures
            s@ == map_of_entries(entries@),
    {
        let mut s = Scheduler::new();
        for e in it: entries.into_iter()
            invariant
                it.seq() == entries@,
                s@ == map_of_entries(it.seq().take(it.index() as int)),
        {
            let ghost done = it.seq().take(it.index() as int);
            let (t, job) = e;
            let _ = s.insert(t, job);
            assert(it.seq().take(it.index() + 1).drop_last() =~= done);
        }
        assert(entries@.take(entries@.len() as int) =~= entries@);
        s
    }
}

/// At most one time is the earliest.
pub proof fn lemma_earliest_unique<J>(m: Map<u64, J>, t: u64)
    requires
        is_earliest(m, t),
    ensures
        earliest_time(m) == t,
{
    assert(is_earliest(m, earliest_time(m)));
}

/// What the scheduling loop waits for.
pub enum Wait {
    /// No job is pending: wait for one to arrive.
    ForJob,
    /// Wait for a job to arrive until the earliest pending job's time.
    Until(u64),
}

/// What ends a wait of the scheduling loop.
pub enum Event {
    /// A client handed in a job.
    Received(JobWithCredentials),
    /// The wait for the earliest pending job ran out; the clock then read
    /// this many seconds since the Unix epoch.
    TimedOut(i64),
    /// The side that hands in jobs went away.
    Disconnected,
}

/// The seconds to wait from `now` (read as an unsigned number of seconds)
/// until `time`; none once the time has come or passed, so that a job that
/// is already due runs at once.
pub fn timeout_secs(time: u64, now: i64) -> (r: u64)
    ensures
        r == if now as u64 <= time {
            time - now as u64
        } else {
            0
        },
{
    let now_secs = now as u64;
    if now_secs <= time {
        time - now_secs
    } else {
        0
    }
}

/// A queue with at least one job has an earliest time.
pub proof fn lemma_earliest_exists<J>(m: Map<u64, J>)
    requires
        m.dom().finite(),
        !m.dom().is_empty(),
    ensures
        is_earliest(m, earliest_time(m)),
    decreases m.dom().len(),
{
    let k = m.dom().choose();
    let rest = m.remove(k);
    assert(rest.dom() =~= m.dom().remove(k));
    if rest.dom().is_empty() {
        assert forall|j: u64| #[trigger] m.contains_key(j) implies k <= j by {
            if j != k {
                assert(rest.dom().contains(j));
            }
        }
        assert(is_earliest(m, k));
    } else {
        lemma_earliest_exists(rest);
        let t = earliest_time(rest);
        if t < k {
            assert(is_earliest(m, t));
        } else {
            assert forall|j: u64| #[trigger] m.contains_key(j) implies k <= j by {
                if j != k {
                    assert(rest.contains_key(j));
                }
            }
            assert(is_earliest(m, k));
        }
    }
}

/// Jobs leave the queue in the order of their times: once the earliest job
/// has left, the next earliest one starts strictly later.
pub proof fn law_jobs_leave_in_time_order<J>(m: Map<u64, J>)
    requires
        m.dom().finite(),
        m.dom().len() >= 2,
    ensures
        earliest_time(m) < earliest_time(m.remove(earliest_time(m))),
{
    lemma_earliest_exists(m);
    let t = earliest_time(m);
    let rest = m.remove(t);
    assert(rest.dom() =~= m.dom().remove(t));
    assert(rest.dom().len() == m.dom().len() - 1);
    lemma_earliest_exists(rest);
}

/// Jobs leave a queue in the order of their times: once its earliest job
/// has left, the next earliest one starts strictly later.
pub proof fn law_queue_leaves_in_time_order(s: &Scheduler)
    requires
        s@.len() >= 2,
    ensures
        earliest_time(s@) < earliest_time(s@.remove(earliest_time(s@))),
{
    s.lemma_finite();
    law_jobs_leave_in_time_order(s@);
}

/// A job whose time is not after any pending job's time is the next to
/// leave the queue once it is put in.
pub proof fn law_earliest_job_runs_next<J>(m: Map<u64, J>, time: u64, job: J)
    requires
        forall|k: u64| #[trigger] m.contains_key(k) ==> time <= k,
    ensures
        earliest_time(m.insert(time, job)) == time,
        m.insert(time, job)[time] == job,
{
    assert(is_earliest(m.insert(time, job), time));
    lemma_earliest_unique(m.insert(time, job), time);
}

/// Entries with strictly increasing times keep every job: the queue they
/// give holds each job under its own time, nothing else, one job per entry.
pub proof fn law_entries_keep_every_job<J>(s: Seq<(u64, J)>)
    requires
        strictly_increasing_times(s),
    ensures
        map_of_entries(s).dom().finite(),
        map_of_entries(s).len() == s.len(),
        forall|i: int|
            0 <= i < s.len() ==> #[trigger] map_of_entries(s).contains_key(s[i].0) && map_of_entries(
                s,
            )[s[i].0] == s[i].1,
        forall|k: u64| #[trigger]
            map_of_entries(s).contains_key(k) ==> exists|i: int| 0 <= i < s.len() && s[i].0 == k,
    decreases s.len(),
{
    if s.len() > 0 {
        let p = s.drop_last();
        assert(strictly_increasing_times(p));
        law_entries_keep_every_job(p);
        let last = s.last();
        assert(!map_of_entries(p).contains_key(last.0)) by {
            if map_of_entries(p).contains_key(last.0) {
                let i = choose|i: int| 0 <= i < p.len() && p[i].0 == last.0;
                assert(s[i].0 < s[s.len() - 1].0);
            }
        }
        assert(map_of_entries(s) == map_of_entries(p).insert(last.0, last.1));
        assert forall|i: int| 0 <= i < s.len() implies #[trigger] map_of_entries(s).contains_key(
            s[i].0,
        ) && map_of_entries(s)[s[i].0] == s[i].1 by {
            if i < s.len() - 1 {
                assert(s[i] == p[i]);
                assert(s[i].0 < last.0);
            }
        }
        assert forall|k: u64| #[trigger] map_of_entries(s).contains_key(k) implies exists|i: int|
            0 <= i < s.len() && s[i].0 == k by {
            if k != last.0 {
                let i = choose|i: int| 0 <= i < p.len() && p[i].0 == k;
                assert(s[i] == p[i]);
            } else {
                assert(s[s.len() - 1].0 == k);
            }
        }
    } else {
        assert(map_of_entries(s) =~= Map::<u64, J>::empty());
    }
}

/// A queue written out as its entries, earliest first, and read back
/// (cleaned at a clock reading not after any of its jobs) is the same queue,
/// with one entry per job, each entry holding the job under its time.
pub proof fn law_saved_queue_restores<J>(m: Map<u64, J>, entries: Seq<(u64, J)>, now: i64)
    requires
        strictly_increasing_times(entries),
        map_of_entries(entries) == m,
        forall|k: u64| #[trigger] m.contains_key(k) ==> now as u64 <= k,
    ensures
        cleaned_at(map_of_entries(entries), now) == m,
        entries.len() == m.len(),
        forall|i: int|
            0 <= i < entries.len() ==> #[trigger] m.contains_key(entries[i].0) && m[entries[i].0]
                == entries[i].1,
{
    law_entries_keep_every_job(entries);
    assert(cleaned_at(m, now) =~= m);
}

/// Cleaning a queue read back when the clock reads `now` keeps exactly the
/// jobs whose time is not before the clock (read as an unsigned number of
/// seconds), each unchanged: no kept job lies in the past, and no job at or
/// after the clock is lost.
pub proof fn law_cleaning_drops_exactly_past_jobs<J>(m: Map<u64, J>, now: i64)
    ensures
        forall|k: u64| #[trigger]
            cleaned_at(m, now).contains_key(k) <==> (m.contains_key(k) && now as u64 <= k),
        forall|k: u64| #[trigger]
            cleaned_at(m, now).contains_key(k) ==> cleaned_at(m, now)[k] == m[k],
        cleaned_at(cleaned_at(m, now), now) == cleaned_at(m, now),
{
    assert(cleaned_at(cleaned_at(m, now), now) =~= cleaned_at(m, now));
}

/// Whether every job waits under its own start time.
pub open spec fn keys_are_times(m: Map<u64, JobWithCredentials>) -> bool {
    forall|k: u64| #[trigger] m.contains_key(k) ==> m[k].time == k
}

/// Each step of the scheduling loop keeps every job under its own start
/// time: putting a received job in under its time, taking a job out, and
/// dropping the jobs before a second.
pub proof fn law_steps_keep_jobs_at_their_times(
    m: Map<u64, JobWithCredentials>,
    job: JobWithCredentials,
    t: u64,
    bound: u64,
)
    requires
        keys_are_times(m),
    ensures
        keys_are_times(m.insert(job.time, job)),
        keys_are_times(m.remove(t)),
        keys_are_times(from_time(m, bound)),
{
}

} // verus!
