//! Where the daemon listens, keeps its queue and writes its journal.

use vstd::prelude::*;

verus! {

/// The directory under which the socket's directory lies.
pub const SOCKET_PATH: &'static str = "/var/run";

/// The directory of the queue's cache file.
pub const CACHE_PATH: &'static str = "/var/cache";

/// The directory of the journal.
pub const LOG_PATH: &'static str = "/var/log";

/// The file name, without extension, of the socket.
pub const SOCKET_NAME: &'static str = "rcron-socket";

/// The name that the program's directory and files carry.
pub const PROGRAM_NAME: &'static str = "rcron";

/// A path with one more component.
pub open spec fn joined(dir: Seq<char>, name: Seq<char>) -> Seq<char> {
    dir + "/"@ + name
}

/// A file name with an extension.
pub open spec fn with_extension(path: Seq<char>, ext: Seq<char>) -> Seq<char> {
    path + "."@ + ext
}

fn join(dir: &str, name: &str) -> (r: String)
    ensures
        r@ == joined(dir@, name@),
{
    let mut r = String::from_str(dir);
    r.append("/");
    r.append(name);
    r
}

fn add_extension(path: &mut String, ext: &str)
    ensures
        final(path)@ == with_extension(old(path)@, ext@),
{
    path.append(".");
    path.append(ext);
}

/// The directory that holds the socket.
pub fn get_socket_dir() -> (r: String)
    ensures
        r@ == joined(SOCKET_PATH@, PROGRAM_NAME@),
{
    join(SOCKET_PATH, PROGRAM_NAME)
}

/// The socket through which clients hand jobs to the daemon.
pub fn get_socket_name() -> (r: String)
    ensures
        r@ == with_extension(joined(joined(SOCKET_PATH@, PROGRAM_NAME@), SOCKET_NAME@), "sock"@),
{
    let dir = get_socket_dir();
    let mut r = join(dir.as_str(), SOCKET_NAME);
    add_extension(&mut r, "sock");
    r
}

/// The file in which the daemon keeps its queue between runs.
pub fn get_cache_name() -> (r: String)
    ensures
        r@ == with_extension(joined(CACHE_PATH@, PROGRAM_NAME@), "bin"@),
{
    let mut r = join(CACHE_PATH, PROGRAM_NAME);
    add_extension(&mut r, "bin");
    r
}

/// The file to which the daemon writes its journal.
pub fn get_journal_name() -> (r: String)
    ensures
        r@ == with_extension(joined(LOG_PATH@, PROGRAM_NAME@), "log"@),
{
    let mut r = join(LOG_PATH, PROGRAM_NAME);
    add_extension(&mut r, "log");
    r
}

} // verus!
