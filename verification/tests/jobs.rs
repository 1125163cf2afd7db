use rcron::client::{parse, parse_at};
use rcron::clock::{local_timestamp, now_timestamp, parse_time};
use rcron::error::{ClientError, JobError};
use rcron::job::{ExecutionPlan, Job, JobWithCredentials};

#[test]
fn job_admitted_one_second_ahead() {
    let job = Job::new_at("ls", vec!["-a", "-l"], 101, 1000, 1000, 100).unwrap();
    assert_eq!(job.command, "ls");
    assert_eq!(job.args, vec!["-a".to_string(), "-l".to_string()]);
    assert_eq!(job.time, 101);
}

#[test]
fn job_refused_when_time_not_ahead() {
    assert!(matches!(Job::new_at("ls", vec![], 100, 1000, 1000, 100), Err(JobError::TimePassed(100))));
    assert!(matches!(Job::new_at("ls", vec![], -7, 1000, 1000, 100), Err(JobError::TimePassed(-7))));
    assert!(matches!(
        Job::new_at("ls", vec![], i64::MIN, 1000, 1000, i64::MAX),
        Err(JobError::TimePassed(i64::MIN))
    ));
}

#[test]
fn job_refused_for_system_ids_first() {
    assert!(matches!(
        Job::new_at("ls", vec![], 50, 999, 1000, 100),
        Err(JobError::AccessDenied((999, 1000)))
    ));
    assert!(matches!(
        Job::new_at("ls", vec![], 500, 1000, 0, 100),
        Err(JobError::AccessDenied((1000, 0)))
    ));
}

#[test]
fn job_far_ahead_against_the_clock() {
    let args = vec!["-l"; 10];
    let job = Job::new("0", args, i64::MAX, 1000, 1000).unwrap();
    assert_eq!(job.command, "0");
    assert_eq!(job.args, vec!["-l".to_owned(); 10]);
    assert_eq!(job.time, i64::MAX as u64);
}

#[test]
fn job_in_the_past_against_the_clock() {
    assert!(matches!(Job::new("ls", vec![], 1, 1000, 1000), Err(JobError::TimePassed(1))));
    assert!(matches!(
        Job::new("ls", vec![], 1, 10, 1000),
        Err(JobError::AccessDenied((10, 1000)))
    ));
}

#[test]
fn negative_time_wraps_into_start_second() {
    let job = Job::new_at("ls", vec![], -1, 1000, 1000, -5).unwrap();
    assert_eq!(job.time, u64::MAX);
}

#[test]
fn plan_keeps_ids() {
    let plan = ExecutionPlan::new_at("echo", vec!["$HOME"], 2000, 1001, 1002, 1000).unwrap();
    assert_eq!(plan.uid, 1001);
    assert_eq!(plan.gid, 1002);
    assert_eq!(plan.command, "echo");
    assert_eq!(plan.args, vec!["$HOME".to_string()]);
    assert_eq!(plan.time, 2000);
    assert!(matches!(
        ExecutionPlan::new_at("echo", vec![], 2000, 1, 2, 1000),
        Err(JobError::AccessDenied((1, 2)))
    ));
    assert!(matches!(
        ExecutionPlan::new_at("echo", vec![], 1000, 1001, 1002, 1000),
        Err(JobError::TimePassed(1000))
    ));
    assert!(ExecutionPlan::new("echo", vec![], i64::MAX, 1001, 1002).is_ok());
}

#[test]
fn credentials_join_the_job() {
    let job = Job::new_at("ls", vec!["-a"], 10, 1000, 1000, 0).unwrap();
    let full = JobWithCredentials::from_job(job, 1500, 1600);
    assert_eq!(full.uid, 1500);
    assert_eq!(full.gid, 1600);
    assert_eq!(full.command, "ls");
    assert_eq!(full.args, vec!["-a".to_string()]);
    assert_eq!(full.time, 10);
}

#[test]
fn local_time_plus_offset() {
    let parsed = Ok(100);
    assert_eq!(local_timestamp(parsed, -3600).unwrap(), -3500);
    assert_eq!(local_timestamp(Ok(1640995199), 7200).unwrap(), 1641002399);
    match local_timestamp(Ok(i64::MAX), 1) {
        Err(ClientError::InvalidTimeParse(m)) => assert_eq!(m, "cannot parse the provided datetime"),
        other => panic!("unexpected {:?}", other),
    }
    let err = chrono::NaiveDateTime::parse_from_str("x", "%Y").unwrap_err();
    assert!(matches!(local_timestamp(Err(err), 0), Err(ClientError::InvalidTimeParse(_))));
}

#[test]
fn parse_time_reads_the_format() {
    // 2021-12-31 23:59:59 is 1640995199 seconds after the epoch, before the zone's offset.
    let t = parse_time("2021.12.31 23:59:59").unwrap();
    assert!(t > 1640995199 - 86_400 && t < 1640995199 + 86_400);
    let u = parse_time("2022.01.01 00:00:00").unwrap();
    assert_eq!(u - t, 1);
    assert!(matches!(parse_time("2021-12-31 23:59:59"), Err(ClientError::InvalidTimeParse(_))));
    assert!(matches!(parse_time("2021.13.01 00:00:00"), Err(ClientError::InvalidTimeParse(_))));
}

#[test]
fn client_parse_outcomes() {
    let plan = parse("ls", vec!["-a"], "2999.12.31 23:59:59", 1000, 1001).unwrap();
    assert_eq!(plan.command, "ls");
    assert_eq!(plan.args, vec!["-a".to_string()]);
    assert_eq!((plan.uid, plan.gid), (1000, 1001));
    assert!(plan.time > 32503680000 - 86_400 && plan.time < 32503680000 + 86_400);
    assert!(matches!(
        parse("ls", vec![], "2999.12.31 23:59:59", 0, 0),
        Err(ClientError::AccessDenied((0, 0)))
    ));
    assert!(matches!(
        parse("ls", vec![], "tomorrow", 0, 0),
        Err(ClientError::InvalidTimeParse(_))
    ));
    assert!(matches!(
        parse("ls", vec![], "2000.01.01 00:00:00", 1000, 1000),
        Err(ClientError::TimePassed(_))
    ));
}

#[test]
fn clock_is_running() {
    let now = now_timestamp();
    assert!(now > 1_600_000_000);
}

#[test]
fn plan_hands_over_its_job() {
    let plan = ExecutionPlan::new_at("echo", vec!["$HOME"], 2000, 1001, 1002, 1000).unwrap();
    let job = plan.into_job();
    assert_eq!(job.command, "echo");
    assert_eq!(job.args, vec!["$HOME".to_string()]);
    assert_eq!(job.time, 2000);
}

#[test]
fn plan_at_fixed_zone_and_clock() {
    // Local 2022-01-01 00:00:00 at +03:00 is 2021-12-31 21:00:00 UTC.
    let p = parse_at("ls", vec!["-a"], Ok(1640995200), -10800, 1000, 1000, 1640000000).unwrap();
    assert_eq!((p.uid, p.gid, p.time), (1000, 1000, 1640984400));
    assert_eq!(p.command, "ls");
    assert_eq!(p.args, vec!["-a".to_string()]);
    // The README's examples with the zone at UTC.
    let p = parse_at("ls", vec!["-a"], Ok(1640995199), 0, 1000, 1000, 1640995000).unwrap();
    assert_eq!(p.time, 1640995199);
    let p = parse_at("echo", vec!["$HOME"], Ok(1640995200), 0, 1001, 1001, 1640995000).unwrap();
    assert_eq!((p.uid, p.time), (1001, 1640995200));
    assert_eq!(p.args, vec!["$HOME".to_string()]);
    // No arguments give an empty list.
    let p = parse_at("ls", vec![], Ok(1640995200), 0, 1000, 1000, 1640995000).unwrap();
    assert!(p.args.is_empty());
    assert!(matches!(
        parse_at("ls", vec![], Ok(1640995200), 0, 999, 1000, 1640995000),
        Err(ClientError::AccessDenied((999, 1000)))
    ));
    assert!(matches!(
        parse_at("ls", vec![], Ok(1640995000), 0, 1000, 1000, 1640995000),
        Err(ClientError::TimePassed(1640995000))
    ));
    assert!(matches!(
        parse_at("ls", vec![], Ok(i64::MAX), 1, 1000, 1000, 0),
        Err(ClientError::InvalidTimeParse(_))
    ));
}
