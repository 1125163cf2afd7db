//! Errors of the job records and of the client, with the texts shown to users.

use vstd::prelude::*;

use crate::text::{decimal, push_decimal};

verus! {

/// The error that `bincode` reports on a failed encoding or decoding.
#[verifier::external_type_specification]
#[verifier::external_body]
pub struct ExBincodeErrorKind(bincode::ErrorKind);

/// The error that `chrono` reports on a text that does not match a format.
#[verifier::external_type_specification]
#[verifier::external_body]
pub struct ExChronoParseError(chrono::ParseError);

/// An input or output error of the standard library.
#[verifier::external_type_specification]
#[verifier::external_body]
pub struct ExIoError(std::io::Error);

pub type JobResult<T> = Result<T, JobError>;

/// Why a job was not built or not transferred.
#[derive(Debug)]
pub enum JobError {
    TransferAborted(String),
    AccessDenied((u32, u32)),
    TimePassed(i64),
}

/// The text that every transfer failure carries.
pub open spec fn transfer_message() -> Seq<char> {
    "cannot transfer data through a socket"@
}

/// The text that a failed time parse carries.
pub open spec fn time_parse_message() -> Seq<char> {
    "cannot parse the provided datetime"@
}

impl vstd::std_specs::convert::FromSpecImpl<bincode::Error> for JobError {
    open spec fn obeys_from_spec() -> bool {
        false
    }

    open spec fn from_spec(v: bincode::Error) -> JobError {
        arbitrary()
    }
}

impl From<bincode::Error> for JobError {
    /// Any encoding or decoding failure aborts the transfer, with one fixed text.
    fn from(_e: bincode::Error) -> (r: Self)
        ensures
            r matches JobError::TransferAborted(m) && m@ == transfer_message(),
    {
        JobError::TransferAborted(String::from_str("cannot transfer data through a socket"))
    }
}

pub type ClientResult<T> = Result<T, ClientError>;

/// Why the client could not schedule a command.
#[derive(Debug)]
pub enum ClientError {
    AccessDenied((u32, u32)),
    InvalidTimeParse(String),
    TimePassed(i64),
    TransferAborted(String),
}

impl vstd::std_specs::convert::FromSpecImpl<chrono::ParseError> for ClientError {
    open spec fn obeys_from_spec() -> bool {
        false
    }

    open spec fn from_spec(v: chrono::ParseError) -> ClientError {
        arbitrary()
    }
}

impl From<chrono::ParseError> for ClientError {
    /// A time text that does not parse gives one fixed text.
    fn from(_e: chrono::ParseError) -> (r: Self)
        ensures
            r matches ClientError::InvalidTimeParse(m) && m@ == time_parse_message(),
    {
        ClientError::InvalidTimeParse(String::from_str("cannot parse the provided datetime"))
    }
}

/// The client error of the same name, with the same content, as a job error.
pub open spec fn client_error_of(e: JobError) -> ClientError {
    match e {
        JobError::AccessDenied(c) => ClientError::AccessDenied(c),
        JobError::TimePassed(t) => ClientError::TimePassed(t),
        JobError::TransferAborted(m) => ClientError::TransferAborted(m),
    }
}

impl vstd::std_specs::convert::FromSpecImpl<JobError> for ClientError {
    open spec fn obeys_from_spec() -> bool {
        true
    }

    open spec fn from_spec(v: JobError) -> ClientError {
        client_error_of(v)
    }
}

impl From<JobError> for ClientError {
    /// Each job error becomes the client error of the same name, with the same content.
    fn from(e: JobError) -> (r: Self) {
        match e {
            JobError::AccessDenied(c) => ClientError::AccessDenied(c),
            JobError::TimePassed(t) => ClientError::TimePassed(t),
            JobError::TransferAborted(m) => ClientError::TransferAborted(m),
        }
    }
}

impl vstd::std_specs::convert::FromSpecImpl<std::io::Error> for ClientError {
    open spec fn obeys_from_spec() -> bool {
        false
    }

    open spec fn from_spec(v: std::io::Error) -> ClientError {
        arbitrary()
    }
}

impl From<std::io::Error> for ClientError {
    /// Any failure of the socket aborts the transfer, with one fixed text.
    fn from(_e: std::io::Error) -> (r: Self)
        ensures
            r matches ClientError::TransferAborted(m) && m@ == transfer_message(),
    {
        ClientError::TransferAborted(String::from_str("cannot transfer data through a socket"))
    }
}

/// The magnitude of a signed number.
pub open spec fn magnitude(t: i64) -> nat {
    if t < 0 {
        (-t) as nat
    } else {
        t as nat
    }
}

/// The text shown to the user for a client error.
pub open spec fn client_message(e: ClientError) -> Seq<char> {
    match e {
        ClientError::AccessDenied((uid, gid)) => "only non-system users are allowed ("@ + decimal(
            uid as nat,
        ) + " > 999, "@ + decimal(gid as nat) + " > 999)"@,
        ClientError::InvalidTimeParse(m) => m@,
        ClientError::TimePassed(t) => "time has already passed ("@ + decimal(magnitude(t)) + "s)"@,
        ClientError::TransferAborted(m) => m@,
    }
}

fn access_denied_text(uid: u32, gid: u32) -> (s: String)
    ensures
        s@ == client_message(ClientError::AccessDenied((uid, gid))),
{
    let mut s = String::from_str("only non-system users are allowed (");
    push_decimal(&mut s, uid as u64);
    s.append(" > 999, ");
    push_decimal(&mut s, gid as u64);
    s.append(" > 999)");
    s
}

fn time_passed_text(t: i64) -> (s: String)
    ensures
        s@ == client_message(ClientError::TimePassed(t)),
{
    let mut s = String::from_str("time has already passed (");
    let abs: u64 = if t < 0 {
        (-(t + 1)) as u64 + 1
    } else {
        t as u64
    };
    push_decimal(&mut s, abs);
    s.append("s)");
    s
}

impl ClientError {
    /// The text shown to the user.
    pub fn message(&self) -> (s: String)
        ensures
            s@ == client_message(*self),
    {
        match self {
            ClientError::AccessDenied((uid, gid)) => access_denied_text(*uid, *gid),
            ClientError::InvalidTimeParse(m) => m.clone(),
            ClientError::TimePassed(t) => time_passed_text(*t),
            ClientError::TransferAborted(m) => m.clone(),
        }
    }
}

impl JobError {
    /// The text shown for a job error: that of the client error of the same
    /// name, with the same content.
    pub fn message(&self) -> (s: String)
        ensures
            s@ == client_message(client_error_of(*self)),
    {
        match self {
            JobError::AccessDenied((uid, gid)) => access_denied_text(*uid, *gid),
            JobError::TimePassed(t) => time_passed_text(*t),
            JobError::TransferAborted(m) => m.clone(),
        }
    }
}

} // verus!
