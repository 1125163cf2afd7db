use rcron::job::{Job, JobWithCredentials};
use rcron::scheduler::{timeout_secs, Event, Scheduler, Wait};

fn job(command: &str, time: u64) -> JobWithCredentials {
    JobWithCredentials {
        uid: 1000,
        gid: 1000,
        command: command.to_string(),
        args: vec![],
        time,
    }
}

#[test]
fn earliest_job_leaves_first() {
    let mut s = Scheduler::new();
    assert!(s.first_time().is_none());
    assert!(s.insert(30, job("c", 30)).is_none());
    assert!(s.insert(10, job("a", 10)).is_none());
    assert!(s.insert(20, job("b", 20)).is_none());
    assert_eq!(s.len(), 3);
    assert_eq!(s.first_time(), Some(10));
    let (t, j) = s.pop_first().unwrap();
    assert_eq!((t, j.command.as_str()), (10, "a"));
    let (t, j) = s.pop_first().unwrap();
    assert_eq!((t, j.command.as_str()), (20, "b"));
    let (t, j) = s.pop_first().unwrap();
    assert_eq!((t, j.command.as_str()), (30, "c"));
    assert!(s.pop_first().is_none());
    assert_eq!(s.len(), 0);
}

#[test]
fn insert_replaces_job_at_same_time() {
    let mut s = Scheduler::new();
    s.insert(5, job("first", 5));
    let prev = s.insert(5, job("second", 5)).unwrap();
    assert_eq!(prev.command, "first");
    assert_eq!(s.len(), 1);
    assert_eq!(s.pop_first().unwrap().1.command, "second");
}

#[test]
fn expired_jobs_are_dropped() {
    let mut s = Scheduler::new();
    for t in [5u64, 10, 15, 20] {
        s.insert(t, job("x", t));
    }
    s.remove_expired(10);
    assert_eq!(s.len(), 3);
    assert_eq!(s.first_time(), Some(10));
    s.remove_before(16);
    assert_eq!(s.len(), 1);
    assert_eq!(s.first_time(), Some(20));
}

#[test]
fn negative_clock_drops_all_but_the_last_second() {
    let mut s = Scheduler::new();
    s.insert(3, job("x", 3));
    s.insert(u64::MAX, job("y", u64::MAX));
    s.remove_expired(-1);
    assert_eq!(s.len(), 1);
    assert_eq!(s.first_time(), Some(u64::MAX));
}

#[test]
fn loop_steps() {
    let mut s = Scheduler::new();
    assert!(matches!(s.next_wait(), Wait::ForJob));
    assert!(s.handle(Event::Received(job("late", 50))).is_none());
    assert!(s.handle(Event::Received(job("early", 40))).is_none());
    assert!(matches!(s.next_wait(), Wait::Until(40)));
    assert!(s.handle(Event::Disconnected).is_none());
    assert_eq!(s.len(), 2);
    // A wait that ran out before the earliest time changes nothing.
    assert!(s.handle(Event::TimedOut(39)).is_none());
    assert_eq!(s.len(), 2);
    let due = s.handle(Event::TimedOut(40)).unwrap();
    assert_eq!(due.command, "early");
    assert!(matches!(s.next_wait(), Wait::Until(50)));
    assert_eq!(s.handle(Event::TimedOut(1000)).unwrap().command, "late");
    assert!(s.handle(Event::TimedOut(1000)).is_none());
    assert!(matches!(s.next_wait(), Wait::ForJob));
}

#[test]
fn earlier_job_runs_next() {
    let mut s = Scheduler::new();
    s.handle(Event::Received(job("b", 100)));
    s.handle(Event::Received(job("a", 90)));
    assert_eq!(s.handle(Event::TimedOut(95)).unwrap().command, "a");
}

#[test]
fn wait_lengths() {
    assert_eq!(timeout_secs(100, 40), 60);
    assert_eq!(timeout_secs(100, 100), 0);
    assert_eq!(timeout_secs(u64::MAX, 0), u64::MAX);
    // A job already due is waited for no longer.
    assert_eq!(timeout_secs(100, 150), 0);
    assert_eq!(timeout_secs(100, -1), 0);
}

#[test]
fn entries_round_trip_in_time_order() {
    let mut s = Scheduler::new();
    for i in (0..10u64).rev() {
        let j = Job::new_at(&format!("{}", i), vec!["-l"; 10], i64::MAX, 1000, 1000, 0).unwrap();
        s.insert(i, JobWithCredentials::from_job(j, 1000, 1000));
    }
    let entries = s.into_entries();
    assert_eq!(entries.len(), 10);
    for (i, (t, j)) in entries.iter().enumerate() {
        assert_eq!(*t, i as u64);
        assert_eq!(j.command, format!("{}", i));
        assert_eq!(j.args, vec!["-l".to_owned(); 10]);
        assert_eq!(j.time, i64::MAX as u64);
    }
    let back = Scheduler::from_entries(entries);
    assert_eq!(back.len(), 10);
    let again = back.into_entries();
    let times: Vec<u64> = again.iter().map(|(t, _)| *t).collect();
    assert_eq!(times, (0..10).collect::<Vec<u64>>());
}

#[test]
fn later_entry_wins() {
    let s = Scheduler::from_entries(vec![(1, job("a", 1)), (1, job("b", 1)), (0, job("c", 0))]);
    let e = s.into_entries();
    assert_eq!(e.len(), 2);
    assert_eq!(e[0].1.command, "c");
    assert_eq!(e[1].1.command, "b");
}

#[test]
fn late_job_runs_at_once() {
    let mut s = Scheduler::new();
    s.handle(Event::Received(job("late", 10)));
    let now = 20;
    match s.next_wait() {
        Wait::Until(t) => assert_eq!(timeout_secs(t, now), 0),
        Wait::ForJob => panic!("a job is pending"),
    }
    assert_eq!(s.handle(Event::TimedOut(now)).unwrap().command, "late");
}

#[test]
fn borrowed_entries_in_time_order() {
    let mut s = Scheduler::new();
    for t in [30u64, 10, 20] {
        s.insert(t, job(&format!("{}", t), t));
    }
    let e = s.entries();
    let times: Vec<u64> = e.iter().map(|(t, _)| *t).collect();
    assert_eq!(times, vec![10, 20, 30]);
    for (t, j) in e {
        assert_eq!(j.command, format!("{}", t));
    }
    assert_eq!(s.len(), 3);
}
