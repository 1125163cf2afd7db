//! Errors of the daemon: of its start, of its queue's cache, of its record.

use vstd::prelude::*;

verus! {

/// Why the daemon could not start or go on listening: the text of the
/// underlying input or output error.
#[derive(Debug)]
pub struct DaemonError(String);

impl DaemonError {
    /// The kept text.
    pub closed spec fn text(self) -> String {
        self.0
    }

    /// The text shown in the journal: the kept text.
    pub fn message(&self) -> (s: String)
        ensures
            s@ == self.text()@,
    {
        self.0.clone()
    }
}

impl vstd::std_specs::convert::FromSpecImpl<std::io::Error> for DaemonError {
    open spec fn obeys_from_spec() -> bool {
        false
    }

    open spec fn from_spec(v: std::io::Error) -> DaemonError {
        arbitrary()
    }
}

impl From<std::io::Error> for DaemonError {
    /// Keeps the text of the input or output error.
    fn from(e: std::io::Error) -> (r: Self)
        ensures
            vstd::string::to_string_from_display_ensures::<std::io::Error>(&e, r.text()),
    {
        DaemonError(e.to_string())
    }
}

/// Why the queue could not be read from or written to its cache file: the
/// text of the underlying error.
#[derive(Debug)]
pub struct CacheError(String);

impl CacheError {
    /// The kept text.
    pub closed spec fn text(self) -> String {
        self.0
    }
}

impl vstd::std_specs::convert::FromSpecImpl<bincode::Error> for CacheError {
    open spec fn obeys_from_spec() -> bool {
        false
    }

    open spec fn from_spec(v: bincode::Error) -> CacheError {
        arbitrary()
    }
}

impl From<bincode::Error> for CacheError {
    /// Keeps the text of the encoding or decoding error.
    fn from(e: bincode::Error) -> (r: Self)
        ensures
            vstd::string::to_string_from_display_ensures::<bincode::Error>(&e, r.text()),
    {
        CacheError(e.to_string())
    }
}

impl vstd::std_specs::convert::FromSpecImpl<std::io::Error> for CacheError {
    open spec fn obeys_from_spec() -> bool {
        false
    }

    open spec fn from_spec(v: std::io::Error) -> CacheError {
        arbitrary()
    }
}

impl From<std::io::Error> for CacheError {
    /// Keeps the text of the input or output error.
    fn from(e: std::io::Error) -> (r: Self)
        ensures
            vstd::string::to_string_from_display_ensures::<std::io::Error>(&e, r.text()),
    {
        CacheError(e.to_string())
    }
}

/// Why the queue could not be read from or written to its record file: the
/// text of the underlying error.
#[derive(Debug)]
pub struct RecordError(String);

impl RecordError {
    /// The kept text.
    pub closed spec fn text(self) -> String {
        self.0
    }
}

impl vstd::std_specs::convert::FromSpecImpl<bincode::Error> for RecordError {
    open spec fn obeys_from_spec() -> bool {
        false
    }

    open spec fn from_spec(v: bincode::Error) -> RecordError {
        arbitrary()
    }
}

impl From<bincode::Error> for RecordError {
    /// Keeps the text of the encoding or decoding error.
    fn from(e: bincode::Error) -> (r: Self)
        ensures
            vstd::string::to_string_from_display_ensures::<bincode::Error>(&e, r.text()),
    {
        RecordError(e.to_string())
    }
}

impl vstd::std_specs::convert::FromSpecImpl<std::io::Error> for RecordError {
    open spec fn obeys_from_spec() -> bool {
        false
    }

    open spec fn from_spec(v: std::io::Error) -> RecordError {
        arbitrary()
    }
}

impl From<std::io::Error> for RecordError {
    /// Keeps the text of the input or output error.
    fn from(e: std::io::Error) -> (r: Self)
        ensures
            vstd::string::to_string_from_display_ensures::<std::io::Error>(&e, r.text()),
    {
        RecordError(e.to_string())
    }
}

} // verus!
