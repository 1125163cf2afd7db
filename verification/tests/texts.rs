use rcron::error::{ClientError, JobError};
use rcron::paths::{get_cache_name, get_journal_name, get_socket_dir, get_socket_name};
use rcron::text::push_decimal;

fn decimal(n: u64) -> String {
    let mut s = String::from("n=");
    push_decimal(&mut s, n);
    s
}

#[test]
fn decimal_rendering() {
    assert_eq!(decimal(0), "n=0");
    assert_eq!(decimal(7), "n=7");
    assert_eq!(decimal(10), "n=10");
    assert_eq!(decimal(1234567890), "n=1234567890");
    assert_eq!(decimal(u64::MAX), "n=18446744073709551615");
}

#[test]
fn access_denied_message() {
    let e = ClientError::AccessDenied((12, 999));
    assert_eq!(e.message(), "only non-system users are allowed (12 > 999, 999 > 999)");
}

#[test]
fn time_passed_message_uses_magnitude() {
    assert_eq!(ClientError::TimePassed(-42).message(), "time has already passed (42s)");
    assert_eq!(ClientError::TimePassed(1640995199).message(), "time has already passed (1640995199s)");
    assert_eq!(
        ClientError::TimePassed(i64::MIN + 1).message(),
        "time has already passed (9223372036854775807s)"
    );
}

#[test]
fn text_messages_are_kept() {
    let e = ClientError::InvalidTimeParse(String::from("cannot parse the provided datetime"));
    assert_eq!(e.message(), "cannot parse the provided datetime");
    let e = ClientError::TransferAborted(String::from("lost"));
    assert_eq!(e.message(), "lost");
}

#[test]
fn job_errors_become_client_errors() {
    assert!(matches!(
        ClientError::from(JobError::AccessDenied((1, 2))),
        ClientError::AccessDenied((1, 2))
    ));
    assert!(matches!(ClientError::from(JobError::TimePassed(-5)), ClientError::TimePassed(-5)));
    match ClientError::from(JobError::TransferAborted(String::from("x"))) {
        ClientError::TransferAborted(m) => assert_eq!(m, "x"),
        other => panic!("unexpected {:?}", other),
    }
}

#[test]
fn io_error_aborts_transfer() {
    let io = std::io::Error::new(std::io::ErrorKind::Other, "broken pipe");
    match ClientError::from(io) {
        ClientError::TransferAborted(m) => assert_eq!(m, "cannot transfer data through a socket"),
        other => panic!("unexpected {:?}", other),
    }
}

#[test]
fn parse_error_is_invalid_time() {
    let err = chrono::NaiveDateTime::parse_from_str("soon", "%Y.%m.%d %H:%M:%S").unwrap_err();
    match ClientError::from(err) {
        ClientError::InvalidTimeParse(m) => assert_eq!(m, "cannot parse the provided datetime"),
        other => panic!("unexpected {:?}", other),
    }
}

#[test]
fn bincode_error_aborts_job_transfer() {
    let err = bincode::deserialize::<u64>(&[1u8, 2]).unwrap_err();
    match JobError::from(err) {
        JobError::TransferAborted(m) => assert_eq!(m, "cannot transfer data through a socket"),
        other => panic!("unexpected {:?}", other),
    }
}

#[test]
fn shared_paths() {
    assert_eq!(get_socket_dir(), "/var/run/rcron");
    assert_eq!(get_socket_name(), "/var/run/rcron/rcron-socket.sock");
    assert_eq!(get_cache_name(), "/var/cache/rcron.bin");
    assert_eq!(get_journal_name(), "/var/log/rcron.log");
}

#[test]
fn time_passed_message_for_the_least_time() {
    assert_eq!(
        ClientError::TimePassed(i64::MIN).message(),
        "time has already passed (9223372036854775808s)"
    );
}

#[test]
fn job_error_messages() {
    assert_eq!(
        JobError::AccessDenied((0, 5)).message(),
        "only non-system users are allowed (0 > 999, 5 > 999)"
    );
    assert_eq!(JobError::TimePassed(-3).message(), "time has already passed (3s)");
    assert_eq!(JobError::TransferAborted(String::from("gone")).message(), "gone");
}

#[test]
fn daemon_error_keeps_the_text() {
    let io = std::io::Error::new(std::io::ErrorKind::Other, "no socket directory");
    let text = io.to_string();
    assert_eq!(rcron::daemon_error::DaemonError::from(io).message(), text);
}
